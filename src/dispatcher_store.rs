//! The index of dispatchers by topic, node and dispatcher id.
use vstd::prelude::*;

use crate::dispatcher::{Dispatcher, DispatcherError, PendingRequest, ResponseDispatcher, Subscriber};
use crate::text::{opt_view, str_eq};

verus! {

/// `d` is registered under `topic`, `node` and `uuid`.
pub open spec fn keyed<T: Dispatcher>(d: T, topic: Seq<char>, node: Seq<char>, uuid: Seq<char>) -> bool {
    d.spec_topic() == topic && d.spec_node_uuid() == node && d.spec_uuid() == uuid
}

/// `d` is on `topic` and has exactly the given request and response types.
pub open spec fn typed<T: Dispatcher>(d: T, topic: Seq<char>, req: Option<Seq<char>>, res: Option<Seq<char>>) -> bool {
    d.spec_topic() == topic && d.spec_request_type() == req && d.spec_response_type() == res
}

pub open spec fn on_topic<T: Dispatcher>(d: T, topic: Seq<char>) -> bool {
    d.spec_topic() == topic
}

pub open spec fn of_node<T: Dispatcher>(topic: Seq<char>, node: Seq<char>) -> spec_fn(T) -> bool {
    |d: T| d.spec_topic() == topic && d.spec_node_uuid() == node
}

pub open spec fn not_of_node<T: Dispatcher>(topic: Seq<char>, node: Seq<char>) -> spec_fn(T) -> bool {
    |d: T| !(d.spec_topic() == topic && d.spec_node_uuid() == node)
}

pub open spec fn any_on_topic<T: Dispatcher>(s: Seq<T>, topic: Seq<char>) -> bool {
    exists|i: int| 0 <= i < s.len() && on_topic(#[trigger] s[i], topic)
}

/// The references in `r` point at the elements of `s` that `f` accepts, in
/// order.
pub open spec fn refs_to<T>(r: Seq<&T>, s: Seq<T>, f: spec_fn(T) -> bool) -> bool {
    r.map_values(|x: &T| *x) == s.filter(f)
}

pub open spec fn with_types<T: Dispatcher>(topic: Seq<char>, req: Option<Seq<char>>, res: Option<Seq<char>>) -> spec_fn(T) -> bool {
    |d: T| typed(d, topic, req, res)
}

pub open spec fn topic_filter<T: Dispatcher>(topic: Seq<char>) -> spec_fn(T) -> bool {
    |d: T| on_topic(d, topic)
}

/// Dispatchers in the order in which they were registered.
pub struct DispatcherStore<T> {
    items: Vec<T>,
}

impl<T> View for DispatcherStore<T> {
    type V = Seq<T>;

    closed spec fn view(&self) -> Seq<T> {
        self.items@
    }
}

fn matches_key<T: Dispatcher>(d: &T, topic: &str, node_uuid: &str, uuid: &str) -> (r: bool)
    ensures
        r == keyed(*d, topic@, node_uuid@, uuid@),
{
    str_eq(d.topic(), topic) && str_eq(d.node_uuid(), node_uuid) && str_eq(d.uuid(), uuid)
}

fn matches_types<T: Dispatcher>(d: &T, topic: &str, request_type: Option<&str>, response_type: Option<&str>) -> (r: bool)
    ensures
        r == typed(*d, topic@, opt_view(request_type), opt_view(response_type)),
{
    let a = str_eq(d.topic(), topic);
    let b = match (d.request_type(), request_type) {
        (Some(x), Some(y)) => str_eq(x, y),
        (None, None) => true,
        _ => false,
    };
    let c = match (d.response_type(), response_type) {
        (Some(x), Some(y)) => str_eq(x, y),
        (None, None) => true,
        _ => false,
    };
    a && b && c
}

impl<T: Dispatcher> DispatcherStore<T> {
    /// No two dispatchers share topic, node and id.
    pub open spec fn wf(&self) -> bool {
        forall|i: int, j: int|
            0 <= i < j < self@.len() ==> !keyed(
                #[trigger] self@[i],
                self@[j].spec_topic(),
                self@[j].spec_node_uuid(),
                #[trigger] self@[j].spec_uuid(),
            )
    }

    pub fn new() -> (r: Self)
        ensures
            r@ == Seq::<T>::empty(),
            r.wf(),
    {
        DispatcherStore { items: Vec::new() }
    }

    fn position(&self, topic: &str, node_uuid: &str, uuid: &str) -> (r: Option<usize>)
        ensures
            match r {
                Some(i) => i < self@.len() && keyed(self@[i as int], topic@, node_uuid@, uuid@),
                None => forall|i: int| 0 <= i < self@.len() ==> !keyed(#[trigger] self@[i], topic@, node_uuid@, uuid@),
            },
    {
        let mut i: usize = 0;
        while i < self.items.len()
            invariant
                i <= self@.len(),
                self@ == self.items@,
                forall|j: int| 0 <= j < i ==> !keyed(#[trigger] self@[j], topic@, node_uuid@, uuid@),
            decreases self@.len() - i,
        {
            if matches_key(&self.items[i], topic, node_uuid, uuid) {
                return Some(i);
            }
            i = i + 1;
        }
        None
    }

    /// Registers a dispatcher; fails if one with the same topic, node and id
    /// is registered.
    pub fn register(&mut self, dispatcher: T) -> (r: Result<(), DispatcherError>)
        requires
            old(self).wf(),
        ensures
            final(self).wf(),
            match r {
                Ok(()) => final(self)@ == old(self)@.push(dispatcher) && forall|i: int| 0 <= i < old(self)@.len()
                    ==> !keyed(#[trigger] old(self)@[i], dispatcher.spec_topic(), dispatcher.spec_node_uuid(), dispatcher.spec_uuid()),
                Err(e) => e == DispatcherError::AlreadyExists && final(self)@ == old(self)@ && exists|i: int|
                    0 <= i < old(self)@.len() && keyed(#[trigger] old(self)@[i], dispatcher.spec_topic(), dispatcher.spec_node_uuid(), dispatcher.spec_uuid()),
            },
    {
        match self.position(dispatcher.topic(), dispatcher.node_uuid(), dispatcher.uuid()) {
            Some(_) => Err(DispatcherError::AlreadyExists),
            None => {
                let ghost before = self@;
                self.items.push(dispatcher);
                assert forall|i: int, j: int| 0 <= i < j < self@.len() implies !keyed(
                    #[trigger] self@[i],
                    self@[j].spec_topic(),
                    self@[j].spec_node_uuid(),
                    #[trigger] self@[j].spec_uuid(),
                ) by {
                    assert(self@[i] == before[i]);
                    if j < before.len() {
                        assert(self@[j] == before[j]);
                    }
                }
                Ok(())
            },
        }
    }

    /// Removes and returns the dispatcher with the given topic, node and id.
    pub fn remove(&mut self, topic: &str, node_uuid: &str, dispatcher_uuid: &str) -> (r: Option<T>)
        requires
            old(self).wf(),
        ensures
            final(self).wf(),
            match r {
                Some(d) => keyed(d, topic@, node_uuid@, dispatcher_uuid@) && exists|i: int|
                    0 <= i < old(self)@.len() && old(self)@[i] == d && final(self)@ == old(self)@.remove(i),
                None => final(self)@ == old(self)@ && forall|i: int| 0 <= i < old(self)@.len()
                    ==> !keyed(#[trigger] old(self)@[i], topic@, node_uuid@, dispatcher_uuid@),
            },
    {
        match self.position(topic, node_uuid, dispatcher_uuid) {
            None => None,
            Some(i) => {
                let ghost before = self@;
                let d = self.items.remove(i);
                assert forall|a: int, b: int| 0 <= a < b < self@.len() implies !keyed(
                    #[trigger] self@[a],
                    self@[b].spec_topic(),
                    self@[b].spec_node_uuid(),
                    #[trigger] self@[b].spec_uuid(),
                ) by {
                    let a0 = if a < i { a } else { a + 1 };
                    let b0 = if b < i { b } else { b + 1 };
                    assert(self@[a] == before[a0]);
                    assert(self@[b] == before[b0]);
                }
                Some(d)
            },
        }
    }

    /// Removes every dispatcher of node `node_uuid` on `topic`; `None` when
    /// there is none.
    pub fn remove_by_node(&mut self, topic: &str, node_uuid: &str) -> (r: Option<Vec<T>>)
        requires
            old(self).wf(),
        ensures
            final(self).wf(),
            final(self)@ == old(self)@.filter(not_of_node(topic@, node_uuid@)),
            match r {
                Some(v) => v@ == old(self)@.filter(of_node(topic@, node_uuid@)) && v@.len() > 0,
                None => old(self)@.filter(of_node(topic@, node_uuid@)).len() == 0,
            },
    {
        let ghost f = of_node::<T>(topic@, node_uuid@);
        let ghost g = not_of_node::<T>(topic@, node_uuid@);
        let mut rest: Vec<T> = Vec::new();
        std::mem::swap(&mut rest, &mut self.items);
        let ghost orig = rest@;
        let n = rest.len();
        let mut kept: Vec<T> = Vec::new();
        let mut taken: Vec<T> = Vec::new();
        let mut k: usize = 0;
        assert(orig.subrange(0, 0).filter(f) =~= Seq::<T>::empty()) by {
            reveal(Seq::filter);
        }
        assert(orig.subrange(0, 0).filter(g) =~= Seq::<T>::empty()) by {
            reveal(Seq::filter);
        }
        while k < n
            invariant
                n == orig.len(),
                k <= n,
                orig == old(self)@,
                old(self).wf(),
                rest@ == orig.subrange(k as int, n as int),
                kept@ == orig.subrange(0, k as int).filter(g),
                taken@ == orig.subrange(0, k as int).filter(f),
                f == of_node::<T>(topic@, node_uuid@),
                g == not_of_node::<T>(topic@, node_uuid@),
            decreases n - k,
        {
            proof {
                assert(orig.subrange(0, k + 1) =~= orig.subrange(0, k as int).push(orig[k as int]));
                orig.subrange(0, k as int).lemma_filter_push(orig[k as int], f);
                orig.subrange(0, k as int).lemma_filter_push(orig[k as int], g);
            }
            let d = rest.remove(0);
            let sel = str_eq(d.topic(), topic) && str_eq(d.node_uuid(), node_uuid);
            if sel {
                taken.push(d);
            } else {
                kept.push(d);
            }
            k = k + 1;
            assert(rest@ =~= orig.subrange(k as int, n as int));
        }
        assert(orig.subrange(0, n as int) =~= orig);
        proof {
            lemma_filter_keeps_unique(orig, g);
        }
        self.items = kept;
        if taken.len() == 0 {
            None
        } else {
            Some(taken)
        }
    }

    /// Whether any dispatcher is registered on `topic`.
    pub fn has_topic(&self, topic: &str) -> (r: bool)
        ensures
            r == any_on_topic(self@, topic@),
    {
        let mut i: usize = 0;
        while i < self.items.len()
            invariant
                i <= self@.len(),
                self@ == self.items@,
                forall|j: int| 0 <= j < i ==> !on_topic(#[trigger] self@[j], topic@),
            decreases self@.len() - i,
        {
            if str_eq(self.items[i].topic(), topic) {
                return true;
            }
            i = i + 1;
        }
        false
    }

    /// The first dispatcher on `topic` with exactly the given types.
    pub fn find(&self, topic: &str, request_type: Option<&str>, response_type: Option<&str>) -> (r: Option<&T>)
        ensures
            match r {
                Some(d) => exists|i: int| 0 <= i < self@.len() && self@[i] == *d
                    && typed(#[trigger] self@[i], topic@, opt_view(request_type), opt_view(response_type))
                    && forall|j: int| 0 <= j < i ==> !typed(#[trigger] self@[j], topic@, opt_view(request_type), opt_view(response_type)),
                None => forall|i: int| 0 <= i < self@.len() ==> !typed(#[trigger] self@[i], topic@, opt_view(request_type), opt_view(response_type)),
            },
    {
        let mut i: usize = 0;
        while i < self.items.len()
            invariant
                i <= self@.len(),
                self@ == self.items@,
                forall|j: int| 0 <= j < i ==> !typed(#[trigger] self@[j], topic@, opt_view(request_type), opt_view(response_type)),
            decreases self@.len() - i,
        {
            if matches_types(&self.items[i], topic, request_type, response_type) {
                return Some(&self.items[i]);
            }
            i = i + 1;
        }
        None
    }

    /// The dispatcher with the given topic, node and id.
    pub fn get(&self, topic: &str, node_uuid: &str, dispatcher_uuid: &str) -> (r: Option<&T>)
        ensures
            match r {
                Some(d) => keyed(*d, topic@, node_uuid@, dispatcher_uuid@) && self@.contains(*d),
                None => forall|i: int| 0 <= i < self@.len() ==> !keyed(#[trigger] self@[i], topic@, node_uuid@, dispatcher_uuid@),
            },
    {
        match self.position(topic, node_uuid, dispatcher_uuid) {
            Some(i) => Some(&self.items[i]),
            None => None,
        }
    }

    fn collect_refs(&self, topic: &str, typed_only: bool, request_type: Option<&str>, response_type: Option<&str>) -> (r: Vec<&T>)
        ensures
            typed_only ==> refs_to(r@, self@, with_types(topic@, opt_view(request_type), opt_view(response_type))),
            !typed_only ==> refs_to(r@, self@, topic_filter(topic@)),
    {
        let ghost f = if typed_only {
            with_types::<T>(topic@, opt_view(request_type), opt_view(response_type))
        } else {
            topic_filter::<T>(topic@)
        };
        let mut out: Vec<&T> = Vec::new();
        let mut i: usize = 0;
        assert(self@.subrange(0, 0).filter(f) =~= Seq::<T>::empty()) by {
            reveal(Seq::filter);
        }
        assert(out@.map_values(|x: &T| *x) =~= Seq::<T>::empty());
        while i < self.items.len()
            invariant
                i <= self@.len(),
                self@ == self.items@,
                f == if typed_only {
                    with_types::<T>(topic@, opt_view(request_type), opt_view(response_type))
                } else {
                    topic_filter::<T>(topic@)
                },
                out@.map_values(|x: &T| *x) == self@.subrange(0, i as int).filter(f),
            decreases self@.len() - i,
        {
            proof {
                assert(self@.subrange(0, i + 1) =~= self@.subrange(0, i as int).push(self@[i as int]));
                self@.subrange(0, i as int).lemma_filter_push(self@[i as int], f);
            }
            let d = &self.items[i];
            let sel = if typed_only {
                matches_types(d, topic, request_type, response_type)
            } else {
                str_eq(d.topic(), topic)
            };
            let ghost before = out@;
            if sel {
                out.push(d);
                assert(out@.map_values(|x: &T| *x) =~= before.map_values(|x: &T| *x).push(*d));
            }
            i = i + 1;
        }
        assert(self@.subrange(0, i as int) =~= self@);
        out
    }

    /// Every dispatcher on `topic`; `None` when there is none.
    pub fn get_for_topic(&self, topic: &str) -> (r: Option<Vec<&T>>)
        ensures
            match r {
                Some(v) => any_on_topic(self@, topic@) && refs_to(v@, self@, topic_filter(topic@)),
                None => !any_on_topic(self@, topic@),
            },
    {
        if !self.has_topic(topic) {
            return None;
        }
        Some(self.collect_refs(topic, false, None, None))
    }

    /// The dispatchers on `topic` with exactly the given types; `None` when
    /// no dispatcher is on `topic` at all.
    pub fn filter(&self, topic: &str, request_type: Option<&str>, response_type: Option<&str>) -> (r: Option<Vec<&T>>)
        ensures
            match r {
                Some(v) => any_on_topic(self@, topic@) && refs_to(
                    v@,
                    self@,
                    with_types(topic@, opt_view(request_type), opt_view(response_type)),
                ),
                None => !any_on_topic(self@, topic@),
            },
    {
        if !self.has_topic(topic) {
            return None;
        }
        Some(self.collect_refs(topic, true, request_type, response_type))
    }
}

pub proof fn lemma_filter_keeps_unique<T: Dispatcher>(s: Seq<T>, f: spec_fn(T) -> bool)
    requires
        forall|i: int, j: int|
            0 <= i < j < s.len() ==> !keyed(#[trigger] s[i], s[j].spec_topic(), s[j].spec_node_uuid(), #[trigger] s[j].spec_uuid()),
    ensures
        forall|i: int, j: int|
            0 <= i < j < s.filter(f).len() ==> !keyed(
                #[trigger] s.filter(f)[i],
                s.filter(f)[j].spec_topic(),
                s.filter(f)[j].spec_node_uuid(),
                #[trigger] s.filter(f)[j].spec_uuid(),
            ),
    decreases s.len(),
{
    reveal(Seq::filter);
    if s.len() > 0 {
        let t = s.drop_last();
        assert forall|i: int, j: int| 0 <= i < j < t.len() implies !keyed(
            #[trigger] t[i],
            t[j].spec_topic(),
            t[j].spec_node_uuid(),
            #[trigger] t[j].spec_uuid(),
        ) by {
            assert(t[i] == s[i] && t[j] == s[j]);
        }
        lemma_filter_keeps_unique(t, f);
        if f(s.last()) {
            let ft = t.filter(f);
            let fs = s.filter(f);
            assert forall|i: int, j: int| 0 <= i < j < fs.len() implies !keyed(
                #[trigger] fs[i],
                fs[j].spec_topic(),
                fs[j].spec_node_uuid(),
                #[trigger] fs[j].spec_uuid(),
            ) by {
                if j == fs.len() - 1 {
                    assert(ft.contains(ft[i]));
                    t.lemma_filter_contains_rev(f, ft[i]);
                    let k = choose|k: int| 0 <= k < t.len() && t[k] == ft[i];
                    assert(s[k] == t[k]);
                    assert(fs[i] == ft[i]);
                } else {
                    assert(fs[i] == ft[i] && fs[j] == ft[j]);
                }
            }
        }
    }
}


/// Subscribers of processes other than `p`.
pub open spec fn other_process<C>(p: Seq<char>) -> spec_fn(Subscriber<C>) -> bool {
    |d: Subscriber<C>| d.process_uuid@ != p
}

pub open spec fn elapsed_at(created: u64, now: u64) -> int {
    if now >= created { now - created } else { 0 }
}

/// Response dispatchers that are still waiting, or finished less than
/// `timeout` ms ago.
pub open spec fn live_response<S>(timeout: u64, now: u64) -> spec_fn(ResponseDispatcher<S>) -> bool {
    |d: ResponseDispatcher<S>| !d.done || elapsed_at(d.created, now) < timeout
}

/// Pending requests created less than `timeout` ms ago, sent or not.
pub open spec fn live_pending<M, S>(timeout: u64, now: u64) -> spec_fn(PendingRequest<M, S>) -> bool {
    |d: PendingRequest<M, S>| elapsed_at(d.created, now) < timeout
}

/// Unsent requests on `topic` with exactly the given types whose message and
/// reply slot are still there.
pub open spec fn takeable<M, S>(topic: Seq<char>, req: Option<Seq<char>>, res: Option<Seq<char>>) -> spec_fn(PendingRequest<M, S>) -> bool {
    |d: PendingRequest<M, S>| typed(d, topic, req, res) && d.message.is_some() && d.sender.is_some()
}

/// The message and reply slot of a request.
pub open spec fn contents<M, S>(d: PendingRequest<M, S>) -> (M, S) {
    (d.message->0, d.sender->0)
}

/// Default age (ms) after which finished entries are dropped.
pub const DEF_CLEAN_TIMEOUT: u64 = 5000;

pub open spec fn clean_timeout(timeout: Option<u64>) -> u64 {
    match timeout {
        Some(t) => t,
        None => DEF_CLEAN_TIMEOUT,
    }
}

impl<C> DispatcherStore<Subscriber<C>> {

    fn retain_other_processes(&mut self, process_uuid: &str)
        requires
            old(self).wf(),
        ensures
            final(self).wf(),
            final(self)@ == old(self)@.filter(other_process::<C>(process_uuid@)),
    {
        let ghost g = other_process::<C>(process_uuid@);
        let mut rest: Vec<Subscriber<C>> = Vec::new();
        std::mem::swap(&mut rest, &mut self.items);
        let ghost orig = rest@;
        let n = rest.len();
        let mut kept: Vec<Subscriber<C>> = Vec::new();
        let mut k: usize = 0;
        assert(orig.subrange(0, 0).filter(g) =~= Seq::<Subscriber<C>>::empty()) by {
            reveal(Seq::filter);
        }
        while k < n
            invariant
                n == orig.len(),
                k <= n,
                orig == old(self)@,
                old(self).wf(),
                rest@ == orig.subrange(k as int, n as int),
                kept@ == orig.subrange(0, k as int).filter(g),
                g == other_process::<C>(process_uuid@),
            decreases n - k,
        {
            proof {
                assert(orig.subrange(0, k + 1) =~= orig.subrange(0, k as int).push(orig[k as int]));
                orig.subrange(0, k as int).lemma_filter_push(orig[k as int], g);
            }
            let d = rest.remove(0);
            let keep = !str_eq(d.process_uuid.as_str(), process_uuid);
            if keep {
                kept.push(d);
            }
            k = k + 1;
            assert(rest@ =~= orig.subrange(k as int, n as int));
        }
        assert(orig.subrange(0, n as int) =~= orig);
        proof {
            lemma_filter_keeps_unique(orig, g);
        }
        self.items = kept;
    }

    /// Drops every subscriber of a departed process.
    pub fn del_by_process(&mut self, process_uuid: &str)
        requires
            old(self).wf(),
        ensures
            final(self).wf(),
            final(self)@ == old(self)@.filter(other_process::<C>(process_uuid@)),
    {
        self.retain_other_processes(process_uuid);
    }
}

impl<S> DispatcherStore<ResponseDispatcher<S>> {

    fn retain_live(&mut self, timeout: u64, now: u64)
        requires
            old(self).wf(),
        ensures
            final(self).wf(),
            final(self)@ == old(self)@.filter(live_response::<S>(timeout, now)),
    {
        let ghost g = live_response::<S>(timeout, now);
        let mut rest: Vec<ResponseDispatcher<S>> = Vec::new();
        std::mem::swap(&mut rest, &mut self.items);
        let ghost orig = rest@;
        let n = rest.len();
        let mut kept: Vec<ResponseDispatcher<S>> = Vec::new();
        let mut k: usize = 0;
        assert(orig.subrange(0, 0).filter(g) =~= Seq::<ResponseDispatcher<S>>::empty()) by {
            reveal(Seq::filter);
        }
        while k < n
            invariant
                n == orig.len(),
                k <= n,
                orig == old(self)@,
                old(self).wf(),
                rest@ == orig.subrange(k as int, n as int),
                kept@ == orig.subrange(0, k as int).filter(g),
                g == live_response::<S>(timeout, now),
            decreases n - k,
        {
            proof {
                assert(orig.subrange(0, k + 1) =~= orig.subrange(0, k as int).push(orig[k as int]));
                orig.subrange(0, k as int).lemma_filter_push(orig[k as int], g);
            }
            let d = rest.remove(0);
            let keep = !d.is_done() || d.elapsed(now) < timeout;
            if keep {
                kept.push(d);
            }
            k = k + 1;
            assert(rest@ =~= orig.subrange(k as int, n as int));
        }
        assert(orig.subrange(0, n as int) =~= orig);
        proof {
            lemma_filter_keeps_unique(orig, g);
        }
        self.items = kept;
    }

    /// Drops the served requests older than `timeout` ms (5000 by default)
    /// at time `now`.
    pub fn clean(&mut self, timeout: Option<u64>, now: u64)
        requires
            old(self).wf(),
        ensures
            final(self).wf(),
            final(self)@ == old(self)@.filter(live_response::<S>(clean_timeout(timeout), now)),
    {
        let t = match timeout {
            Some(t) => t,
            None => DEF_CLEAN_TIMEOUT,
        };
        self.retain_live(t, now);
    }

    /// Completes the request with the given topic, node and id: takes its
    /// reply slot out and marks it done. `None` when no such request waits.
    pub fn complete(&mut self, topic: &str, node_uuid: &str, req_uuid: &str) -> (r: Option<(bool, Option<S>)>)
        requires
            old(self).wf(),
        ensures
            final(self).wf(),
            match r {
                Some((remote, slot)) => exists|i: int| 0 <= i < old(self)@.len() && keyed(#[trigger] old(self)@[i], topic@, node_uuid@, req_uuid@)
                    && remote == old(self)@[i].remote && slot == old(self)@[i].sender
                    && final(self)@.len() == old(self)@.len()
                    && final(self)@[i].done && final(self)@[i].sender.is_none() && final(self)@[i].info == old(self)@[i].info
                    && final(self)@[i].created == old(self)@[i].created && final(self)@[i].remote == old(self)@[i].remote
                    && forall|j: int| 0 <= j < old(self)@.len() && j != i ==> final(self)@[j] == old(self)@[j],
                None => final(self)@ == old(self)@ && forall|i: int| 0 <= i < old(self)@.len()
                    ==> !keyed(#[trigger] old(self)@[i], topic@, node_uuid@, req_uuid@),
            },
    {
        match self.position(topic, node_uuid, req_uuid) {
            None => None,
            Some(i) => {
                let ghost before = self@;
                let mut d = self.items.remove(i);
                let slot = d.dispatch();
                d.done();
                let remote = d.is_remote();
                self.items.insert(i, d);
                assert forall|a: int, b: int| 0 <= a < b < self@.len() implies !keyed(
                    #[trigger] self@[a],
                    self@[b].spec_topic(),
                    self@[b].spec_node_uuid(),
                    #[trigger] self@[b].spec_uuid(),
                ) by {
                    if a != i {
                        assert(self@[a] == before[a]);
                    }
                    if b != i {
                        assert(self@[b] == before[b]);
                    }
                }
                assert forall|j: int| 0 <= j < before.len() && j != i implies self@[j] == before[j] by {}
                Some((remote, slot))
            },
        }
    }
}

impl<M, S> DispatcherStore<PendingRequest<M, S>> {

    fn retain_live(&mut self, timeout: u64, now: u64)
        requires
            old(self).wf(),
        ensures
            final(self).wf(),
            final(self)@ == old(self)@.filter(live_pending::<M, S>(timeout, now)),
    {
        let ghost g = live_pending::<M, S>(timeout, now);
        let mut rest: Vec<PendingRequest<M, S>> = Vec::new();
        std::mem::swap(&mut rest, &mut self.items);
        let ghost orig = rest@;
        let n = rest.len();
        let mut kept: Vec<PendingRequest<M, S>> = Vec::new();
        let mut k: usize = 0;
        assert(orig.subrange(0, 0).filter(g) =~= Seq::<PendingRequest<M, S>>::empty()) by {
            reveal(Seq::filter);
        }
        while k < n
            invariant
                n == orig.len(),
                k <= n,
                orig == old(self)@,
                old(self).wf(),
                rest@ == orig.subrange(k as int, n as int),
                kept@ == orig.subrange(0, k as int).filter(g),
                g == live_pending::<M, S>(timeout, now),
            decreases n - k,
        {
            proof {
                assert(orig.subrange(0, k + 1) =~= orig.subrange(0, k as int).push(orig[k as int]));
                orig.subrange(0, k as int).lemma_filter_push(orig[k as int], g);
            }
            let d = rest.remove(0);
            let keep = d.elapsed(now) < timeout;
            if keep {
                kept.push(d);
            }
            k = k + 1;
            assert(rest@ =~= orig.subrange(k as int, n as int));
        }
        assert(orig.subrange(0, n as int) =~= orig);
        proof {
            lemma_filter_keeps_unique(orig, g);
        }
        self.items = kept;
    }

    /// Drops the requests older than `timeout` ms (5000 by default) at time
    /// `now`, whether they were sent or are still waiting for a provider.
    pub fn clean(&mut self, timeout: Option<u64>, now: u64)
        requires
            old(self).wf(),
        ensures
            final(self).wf(),
            final(self)@ == old(self)@.filter(live_pending::<M, S>(clean_timeout(timeout), now)),
    {
        let t = match timeout {
            Some(t) => t,
            None => DEF_CLEAN_TIMEOUT,
        };
        self.retain_live(t, now);
    }

    /// Takes out the message and reply slot of every unsent request on
    /// `topic` with exactly the given types, marking each as sent, in order
    /// of registration.
    pub fn take_pending(&mut self, topic: &str, request_type: Option<&str>, response_type: Option<&str>) -> (r: Vec<(M, S)>)
        requires
            old(self).wf(),
        ensures
            final(self).wf(),
            final(self)@.len() == old(self)@.len(),
            r@ == old(self)@.filter(takeable::<M, S>(topic@, opt_view(request_type), opt_view(response_type))).map_values(
                |d: PendingRequest<M, S>| contents(d),
            ),
            forall|i: int| 0 <= i < old(self)@.len() ==> {
                let d = #[trigger] old(self)@[i];
                let e = final(self)@[i];
                &&& e.info == d.info
                &&& e.created == d.created
                &&& typed(d, topic@, opt_view(request_type), opt_view(response_type)) ==> e.requested
                    && e.message.is_none() && e.sender.is_none()
                &&& !typed(d, topic@, opt_view(request_type), opt_view(response_type)) ==> e == d
            },
    {
        let ghost orig = self@;
        let mut out: Vec<(M, S)> = Vec::new();
        let mut rest: Vec<PendingRequest<M, S>> = Vec::new();
        std::mem::swap(&mut rest, &mut self.items);
        let n = rest.len();
        let mut done: Vec<PendingRequest<M, S>> = Vec::new();
        let mut k: usize = 0;
        let ghost f = takeable::<M, S>(topic@, opt_view(request_type), opt_view(response_type));
        assert(orig.subrange(0, 0).filter(f) =~= Seq::<PendingRequest<M, S>>::empty()) by {
            reveal(Seq::filter);
        }
        assert(out@ =~= orig.subrange(0, 0).filter(f).map_values(|d: PendingRequest<M, S>| contents(d)));
        while k < n
            invariant
                n == orig.len(),
                k <= n,
                orig == old(self)@,
                old(self).wf(),
                rest@ == orig.subrange(k as int, n as int),
                done@.len() == k,
                f == takeable::<M, S>(topic@, opt_view(request_type), opt_view(response_type)),
                out@ == orig.subrange(0, k as int).filter(f).map_values(|d: PendingRequest<M, S>| contents(d)),
                forall|i: int| 0 <= i < k ==> {
                    let d = #[trigger] orig[i];
                    let e = done@[i];
                    &&& e.info == d.info
                    &&& e.created == d.created
                    &&& typed(d, topic@, opt_view(request_type), opt_view(response_type)) ==> e.requested
                        && e.message.is_none() && e.sender.is_none()
                    &&& !typed(d, topic@, opt_view(request_type), opt_view(response_type)) ==> e == d
                },
            decreases n - k,
        {
            proof {
                assert(orig.subrange(0, k + 1) =~= orig.subrange(0, k as int).push(orig[k as int]));
                orig.subrange(0, k as int).lemma_filter_push(orig[k as int], f);
            }
            let ghost before = out@;
            let mut d = rest.remove(0);
            assert(d == orig[k as int]);
            if matches_types(&d, topic, request_type, response_type) {
                match d.take() {
                    Some(pair) => {
                        out.push(pair);
                    },
                    None => {},
                }
            }
            proof {
                let fk = orig.subrange(0, k + 1).filter(f);
                if f(orig[k as int]) {
                    assert(out@ =~= fk.map_values(|d: PendingRequest<M, S>| contents(d)));
                } else {
                    assert(out@ =~= fk.map_values(|d: PendingRequest<M, S>| contents(d)));
                }
            }
            done.push(d);
            k = k + 1;
            assert(rest@ =~= orig.subrange(k as int, n as int));
        }
        assert(orig.subrange(0, n as int) =~= orig);
        self.items = done;
        proof {
            assert forall|a: int, b: int| 0 <= a < b < self@.len() implies !keyed(
                #[trigger] self@[a],
                self@[b].spec_topic(),
                self@[b].spec_node_uuid(),
                #[trigger] self@[b].spec_uuid(),
            ) by {
                assert(!keyed(orig[a], orig[b].spec_topic(), orig[b].spec_node_uuid(), orig[b].spec_uuid()));
            }
        }
        out
    }
}
} // verus!
