//! The decisions of the per-process orchestrator: who receives a publish,
//! where a request goes, and how discovery events change the subscribers.
use vstd::prelude::*;
use vstd::string::StringExecFns;

use crate::discovery_types::{MessagePublisher, PubType, Publisher};
use crate::dispatcher::{ServiceDispatcher, Subscriber};
use crate::dispatcher_store::{any_on_topic, refs_to, typed, with_types, DispatcherStore};
use crate::text::{opt_view, str_eq};

verus! {

/// Subscribers on `topic` for messages of type `msg_type` that live in this
/// process.
pub open spec fn local_match<C>(topic: Seq<char>, msg_type: Seq<char>) -> spec_fn(Subscriber<C>) -> bool {
    |d: Subscriber<C>| typed(d, topic, Some(msg_type), None) && d.sender.is_some()
}

/// Subscribers on `topic` for messages of type `msg_type` that live in
/// another process.
pub open spec fn remote_match<C>(topic: Seq<char>, msg_type: Seq<char>) -> spec_fn(Subscriber<C>) -> bool {
    |d: Subscriber<C>| typed(d, topic, Some(msg_type), None) && d.sender.is_none()
}

/// Who receives a publish.
pub struct FanOut<'a, C> {
    /// The local subscribers, each to be handed the message once.
    pub local: Vec<&'a Subscriber<C>>,
    /// How many times the message goes over the wire: once per remote
    /// subscriber.
    pub remote: usize,
}

/// The receivers of a message of type `msg_type` published on `topic`.
pub fn fan_out<'a, C>(subscribers: &'a DispatcherStore<Subscriber<C>>, topic: &str, msg_type: &str) -> (r: FanOut<'a, C>)
    ensures
        refs_to(r.local@, subscribers@, local_match(topic@, msg_type@)),
        r.remote == subscribers@.filter(remote_match::<C>(topic@, msg_type@)).len(),
{
    let ghost f = local_match::<C>(topic@, msg_type@);
    let ghost g = remote_match::<C>(topic@, msg_type@);
    let ghost h = with_types::<Subscriber<C>>(topic@, Some(msg_type@), None);
    let mut local: Vec<&'a Subscriber<C>> = Vec::new();
    let mut remote: usize = 0;
    match subscribers.filter(topic, Some(msg_type), None) {
        None => {
            proof {
                lemma_none_on_topic(subscribers@, topic@, msg_type@);
                assert(local@.map_values(|x: &Subscriber<C>| *x) =~= Seq::<Subscriber<C>>::empty());
            }
        },
        Some(matching) => {
            let ghost m = subscribers@.filter(h);
            assert(opt_view(Some(msg_type)) == Some(msg_type@));
            assert(opt_view(None::<&str>) == None::<Seq<char>>);
            proof {
                lemma_split_matching(subscribers@, topic@, msg_type@);
            }
            let n = matching.len();
            assert(m.len() == n);
            let mut i: usize = 0;
            assert(m.subrange(0, 0).filter(f) =~= Seq::<Subscriber<C>>::empty()) by {
                reveal(Seq::filter);
            }
            assert(m.subrange(0, 0).filter(g) =~= Seq::<Subscriber<C>>::empty()) by {
                reveal(Seq::filter);
            }
            assert(local@.map_values(|x: &Subscriber<C>| *x) =~= Seq::<Subscriber<C>>::empty());
            while i < n
                invariant
                    n == matching@.len(),
                    matching@.map_values(|x: &Subscriber<C>| *x) == m,
                    m == subscribers@.filter(h),
                    h == with_types::<Subscriber<C>>(topic@, Some(msg_type@), None),
                    m.len() == n,
                    i <= n,
                    f == local_match::<C>(topic@, msg_type@),
                    g == remote_match::<C>(topic@, msg_type@),
                    local@.map_values(|x: &Subscriber<C>| *x) == m.subrange(0, i as int).filter(f),
                    remote == m.subrange(0, i as int).filter(g).len(),
                    remote <= i,
                decreases n - i,
            {
                let d = matching[i];
                proof {
                    assert(m[i as int] == *d);
                    assert(m.subrange(0, i + 1) =~= m.subrange(0, i as int).push(m[i as int]));
                    m.subrange(0, i as int).lemma_filter_push(m[i as int], f);
                    m.subrange(0, i as int).lemma_filter_push(m[i as int], g);
                    subscribers@.lemma_filter_pred(h, i as int);
                }
                let ghost before = local@;
                if d.is_remote() {
                    remote = remote + 1;
                } else {
                    local.push(d);
                    assert(local@.map_values(|x: &Subscriber<C>| *x) =~= before.map_values(|x: &Subscriber<C>| *x).push(*d));
                }
                i = i + 1;
            }
            assert(m.subrange(0, n as int) =~= m);
            assert(m == subscribers@.filter(h));
        },
    }
    FanOut { local, remote }
}

proof fn lemma_filter_none_sub<T>(s: Seq<T>, f: spec_fn(T) -> bool)
    requires
        forall|i: int| 0 <= i < s.len() ==> !f(#[trigger] s[i]),
    ensures
        s.filter(f) == Seq::<T>::empty(),
    decreases s.len(),
{
    reveal(Seq::filter);
    if s.len() > 0 {
        let t = s.drop_last();
        assert forall|i: int| 0 <= i < t.len() implies !f(#[trigger] t[i]) by {
            assert(t[i] == s[i]);
        }
        lemma_filter_none_sub(t, f);
        assert(!f(s[s.len() - 1]));
    }
}

proof fn lemma_none_on_topic<C>(s: Seq<Subscriber<C>>, topic: Seq<char>, msg_type: Seq<char>)
    requires
        !any_on_topic(s, topic),
    ensures
        s.filter(local_match::<C>(topic, msg_type)) == Seq::<Subscriber<C>>::empty(),
        s.filter(remote_match::<C>(topic, msg_type)) == Seq::<Subscriber<C>>::empty(),
{
    assert forall|i: int| 0 <= i < s.len() implies !(#[trigger] local_match::<C>(topic, msg_type)(s[i])) by {
        assert(!crate::dispatcher_store::on_topic(s[i], topic));
    }
    assert forall|i: int| 0 <= i < s.len() implies !(#[trigger] remote_match::<C>(topic, msg_type)(s[i])) by {
        assert(!crate::dispatcher_store::on_topic(s[i], topic));
    }
    lemma_filter_none_sub(s, local_match::<C>(topic, msg_type));
    lemma_filter_none_sub(s, remote_match::<C>(topic, msg_type));
}

/// Filtering the matching subscribers by locality is filtering all of them.
proof fn lemma_split_matching<C>(s: Seq<Subscriber<C>>, topic: Seq<char>, msg_type: Seq<char>)
    ensures
        s.filter(with_types::<Subscriber<C>>(topic, Some(msg_type), None)).filter(local_match::<C>(topic, msg_type))
            == s.filter(local_match::<C>(topic, msg_type)),
        s.filter(with_types::<Subscriber<C>>(topic, Some(msg_type), None)).filter(remote_match::<C>(topic, msg_type))
            == s.filter(remote_match::<C>(topic, msg_type)),
    decreases s.len(),
{
    let h = with_types::<Subscriber<C>>(topic, Some(msg_type), None);
    let f = local_match::<C>(topic, msg_type);
    let g = remote_match::<C>(topic, msg_type);
    if s.len() == 0 {
        reveal(Seq::filter);
        assert(s.filter(h) =~= Seq::<Subscriber<C>>::empty());
    } else {
        let t = s.drop_last();
        let x = s.last();
        lemma_split_matching(t, topic, msg_type);
        assert(s =~= t.push(x));
        t.lemma_filter_push(x, h);
        t.lemma_filter_push(x, f);
        t.lemma_filter_push(x, g);
        if h(x) {
            t.filter(h).lemma_filter_push(x, f);
            t.filter(h).lemma_filter_push(x, g);
        }
    }
}

/// Every subscriber that matches a publish is served exactly once: either
/// in this process or over the wire, never both.
pub proof fn lemma_publish_reaches_each_subscriber_once<C>(s: Seq<Subscriber<C>>, topic: Seq<char>, msg_type: Seq<char>)
    ensures
        s.filter(local_match::<C>(topic, msg_type)).len() + s.filter(remote_match::<C>(topic, msg_type)).len()
            == s.filter(with_types::<Subscriber<C>>(topic, Some(msg_type), None)).len(),
    decreases s.len(),
{
    let h = with_types::<Subscriber<C>>(topic, Some(msg_type), None);
    let f = local_match::<C>(topic, msg_type);
    let g = remote_match::<C>(topic, msg_type);
    if s.len() == 0 {
        reveal(Seq::filter);
    } else {
        let t = s.drop_last();
        let x = s.last();
        lemma_publish_reaches_each_subscriber_once(t, topic, msg_type);
        assert(s =~= t.push(x));
        t.lemma_filter_push(x, h);
        t.lemma_filter_push(x, f);
        t.lemma_filter_push(x, g);
    }
}

/// Where a request goes.
#[derive(Debug)]
pub enum RequestRoute {
    /// To the service advertised in this process.
    Local,
    /// To a known remote provider: its address and routing identity.
    Remote(String, String),
    /// Nowhere yet: probe the network for the service.
    Discover,
    /// Nowhere yet: known providers of the topic answer other types.
    Wait,
}

/// `p` provides a service answering `req`/`res`.
pub open spec fn provides(p: Publisher, req: Seq<char>, res: Seq<char>) -> bool {
    p.pub_type matches Some(PubType::SrvPub(s)) && s.request_type@ == req && s.response_type@ == res
}

/// Chooses where a request on `topic` goes: a local service of matching types
/// first; else the first known remote provider of matching types; else a
/// discovery probe when no provider of the topic is known at all.
pub fn route_request<C>(
    services: &DispatcherStore<ServiceDispatcher<C>>,
    known: &Vec<Publisher>,
    topic: &str,
    request_type: &str,
    response_type: &str,
) -> (r: RequestRoute)
    ensures
        (exists|i: int| 0 <= i < services@.len() && typed(#[trigger] services@[i], topic@, Some(request_type@), Some(response_type@)))
            <==> r is Local,
        r matches RequestRoute::Remote(addr, id) ==> exists|i: int| 0 <= i < known@.len() && provides(#[trigger] known@[i], request_type@, response_type@)
            && known@[i].address@ == addr@ && (known@[i].pub_type matches Some(PubType::SrvPub(s)) && s.socket_id@ == id@)
            && forall|j: int| 0 <= j < i ==> !provides(#[trigger] known@[j], request_type@, response_type@),
        r is Discover <==> (!(exists|i: int| 0 <= i < services@.len() && typed(#[trigger] services@[i], topic@, Some(request_type@), Some(response_type@))) && known@.len() == 0),
        r is Wait ==> forall|j: int| 0 <= j < known@.len() ==> !provides(#[trigger] known@[j], request_type@, response_type@),
        !(r is Local) && (exists|i: int| 0 <= i < known@.len() && provides(#[trigger] known@[i], request_type@, response_type@)) ==> r is Remote,
{
    if services.find(topic, Some(request_type), Some(response_type)).is_some() {
        return RequestRoute::Local;
    }
    if known.len() == 0 {
        return RequestRoute::Discover;
    }
    let mut i: usize = 0;
    while i < known.len()
        invariant
            i <= known@.len(),
            known@.len() > 0,
            forall|j: int| 0 <= j < services@.len() ==> !typed(#[trigger] services@[j], topic@, Some(request_type@), Some(response_type@)),
            forall|j: int| 0 <= j < i ==> !provides(#[trigger] known@[j], request_type@, response_type@),
        decreases known@.len() - i,
    {
        let p = &known[i];
        match &p.pub_type {
            Some(PubType::SrvPub(s)) => {
                if str_eq(s.request_type.as_str(), request_type) && str_eq(s.response_type.as_str(), response_type) {
                    return RequestRoute::Remote(p.address.clone(), s.socket_id.clone());
                }
            },
            _ => {},
        }
        i = i + 1;
    }
    RequestRoute::Wait
}

/// The notices that a subscribing process sends when it hears of a message
/// publisher: one per local subscriber node on the topic, naming the
/// publisher's process as the control address and this process as the owner.
pub open spec fn connection_notice(notice: Publisher, publisher: Publisher, own: Seq<char>, node: Seq<char>) -> bool {
    &&& notice.topic == publisher.topic
    &&& notice.address == publisher.address
    &&& notice.scope == publisher.scope
    &&& notice.process_uuid@ == own
    &&& notice.node_uuid@ == node
    &&& publisher.pub_type matches Some(PubType::MsgPub(m)) && notice.pub_type matches Some(PubType::MsgPub(n))
        && n.ctrl@ == publisher.process_uuid@ && n.msg_type == m.msg_type && n.throttled == m.throttled
        && n.msgs_per_sec == m.msgs_per_sec
}

/// What a process does when discovery reports a message publisher: `None`
/// when nothing (no local subscriber on the topic, or the publisher is in
/// this process, or it is a service); else the records to announce with
/// `NewConnection`, one per local subscriber on the topic, and the caller
/// connects to the publisher's address.
pub fn on_connection<C>(subscribers: &DispatcherStore<Subscriber<C>>, own_p_uuid: &str, publisher: &Publisher) -> (r: Option<Vec<Publisher>>)
    ensures
        r is None <==> (!any_on_topic(subscribers@, publisher.topic@) || publisher.process_uuid@ == own_p_uuid@
            || !(publisher.pub_type matches Some(PubType::MsgPub(_)))),
        r matches Some(v) ==> v@.len() == subscribers@.filter(crate::dispatcher_store::topic_filter::<Subscriber<C>>(publisher.topic@)).len()
            && forall|i: int| 0 <= i < v@.len() ==> connection_notice(
                #[trigger] v@[i],
                *publisher,
                own_p_uuid@,
                subscribers@.filter(crate::dispatcher_store::topic_filter::<Subscriber<C>>(publisher.topic@))[i].node_uuid@,
            ),
{
    if !subscribers.has_topic(publisher.topic.as_str()) || str_eq(publisher.process_uuid.as_str(), own_p_uuid) {
        return None;
    }
    let m = match &publisher.pub_type {
        Some(PubType::MsgPub(m)) => m,
        _ => return None,
    };
    let on_topic = match subscribers.get_for_topic(publisher.topic.as_str()) {
        Some(v) => v,
        None => return None,
    };
    let ghost subs = on_topic@.map_values(|x: &Subscriber<C>| *x);
    let mut out: Vec<Publisher> = Vec::new();
    let mut i: usize = 0;
    while i < on_topic.len()
        invariant
            i <= on_topic@.len(),
            subs == on_topic@.map_values(|x: &Subscriber<C>| *x),
            publisher.pub_type == Some(PubType::MsgPub(*m)),
            out@.len() == i,
            forall|j: int| 0 <= j < i ==> connection_notice(#[trigger] out@[j], *publisher, own_p_uuid@, subs[j].node_uuid@),
        decreases on_topic@.len() - i,
    {
        let s = on_topic[i];
        assert(subs[i as int] == *s);
        let notice = Publisher {
            topic: publisher.topic.clone(),
            address: publisher.address.clone(),
            process_uuid: String::from_str(own_p_uuid),
            node_uuid: s.node_uuid.clone(),
            scope: publisher.scope,
            pub_type: Some(PubType::MsgPub(MessagePublisher {
                ctrl: publisher.process_uuid.clone(),
                msg_type: m.msg_type.clone(),
                throttled: m.throttled,
                msgs_per_sec: m.msgs_per_sec,
            })),
        };
        out.push(notice);
        i = i + 1;
    }
    Some(out)
}

/// The remote subscriber that a `NewConnection` notice asks this process to
/// serve: `None` unless the notice is about a message publisher and names
/// this process as its control address.
pub fn on_registration<C>(uuid: &str, own_p_uuid: &str, notice: &Publisher) -> (r: Option<Subscriber<C>>)
    ensures
        r is Some <==> (notice.pub_type matches Some(PubType::MsgPub(m)) && m.ctrl@ == own_p_uuid@),
        r matches Some(s) ==> {
            &&& s.uuid@ == uuid@
            &&& s.process_uuid@ == notice.process_uuid@
            &&& s.node_uuid@ == notice.node_uuid@
            &&& s.topic@ == notice.topic@
            &&& (notice.pub_type matches Some(PubType::MsgPub(m)) && s.msg_type@ == m.msg_type@)
            &&& s.sender.is_none()
        },
{
    match &notice.pub_type {
        Some(PubType::MsgPub(m)) => {
            if !str_eq(m.ctrl.as_str(), own_p_uuid) {
                return None;
            }
            Some(Subscriber::new(
                uuid,
                notice.process_uuid.as_str(),
                notice.node_uuid.as_str(),
                notice.topic.as_str(),
                m.msg_type.as_str(),
                None,
            ))
        },
        _ => None,
    }
}

/// Drops the subscribers that a disconnection concerns: those of one node on
/// one topic when the record names both, else all of its process.
pub fn on_disconnection<C>(subscribers: &mut DispatcherStore<Subscriber<C>>, record: &Publisher)
    requires
        old(subscribers).wf(),
    ensures
        final(subscribers).wf(),
        record.topic@.len() > 0 && record.node_uuid@.len() > 0 ==> final(subscribers)@ == old(subscribers)@.filter(
            crate::dispatcher_store::not_of_node::<Subscriber<C>>(record.topic@, record.node_uuid@),
        ),
        !(record.topic@.len() > 0 && record.node_uuid@.len() > 0) ==> final(subscribers)@ == old(subscribers)@.filter(
            crate::dispatcher_store::other_process::<C>(record.process_uuid@),
        ),
{
    if !record.topic.as_str().is_empty() && !record.node_uuid.as_str().is_empty() {
        let _ = subscribers.remove_by_node(record.topic.as_str(), record.node_uuid.as_str());
    } else {
        subscribers.del_by_process(record.process_uuid.as_str());
    }
}


/// Handles an `EndConnection` notice: when it is about a message publisher
/// and names this process as its control address, the remote subscribers of
/// the notice's node on its topic are dropped. Returns whether it applied.
pub fn on_unregistration<C>(subscribers: &mut DispatcherStore<Subscriber<C>>, own_p_uuid: &str, notice: &Publisher) -> (r: bool)
    requires
        old(subscribers).wf(),
    ensures
        final(subscribers).wf(),
        r <==> (notice.pub_type matches Some(PubType::MsgPub(m)) && m.ctrl@ == own_p_uuid@),
        r ==> final(subscribers)@ == old(subscribers)@.filter(
            crate::dispatcher_store::not_of_node::<Subscriber<C>>(notice.topic@, notice.node_uuid@),
        ),
        !r ==> final(subscribers)@ == old(subscribers)@,
{
    match &notice.pub_type {
        Some(PubType::MsgPub(m)) => {
            if !str_eq(m.ctrl.as_str(), own_p_uuid) {
                return false;
            }
            let _ = subscribers.remove_by_node(notice.topic.as_str(), notice.node_uuid.as_str());
            true
        },
        _ => false,
    }
}
} // verus!
