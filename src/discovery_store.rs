//! The index of known publishers that a discovery engine keeps.
use vstd::prelude::*;
use vstd::string::StringExecFns;

use crate::discovery_types::{Publisher, PubType};
use crate::text::{decimal, decimal_digits, opt_view, prefixed, str_eq};

verus! {

/// Why a store operation was refused.
#[derive(Debug, Clone, Copy, PartialEq, Eq, Structural)]
pub enum StoreError {
    /// A record with the same topic, process and node is already stored.
    PublisherExists,
    /// No stored record matches.
    PublisherNotFound,
}

impl StoreError {
    /// A sentence that says what went wrong.
    pub fn message(&self) -> (r: String)
        ensures
            r@ == match self {
                StoreError::PublisherExists => "Publisher already exists"@,
                StoreError::PublisherNotFound => "Publisher not found"@,
            },
    {
        match self {
            StoreError::PublisherExists => String::from_str("Publisher already exists"),
            StoreError::PublisherNotFound => String::from_str("Publisher not found"),
        }
    }
}

/// Two records share topic, process and node.
pub open spec fn same_key(a: Publisher, b: Publisher) -> bool {
    a.topic@ == b.topic@ && a.process_uuid@ == b.process_uuid@ && a.node_uuid@ == b.node_uuid@
}

/// `p` matches each of the parts that is given.
pub open spec fn selects(
    p: Publisher,
    topic: Option<Seq<char>>,
    p_uuid: Option<Seq<char>>,
    n_uuid: Option<Seq<char>>,
) -> bool {
    &&& (topic matches Some(t) ==> p.topic@ == t)
    &&& (p_uuid matches Some(u) ==> p.process_uuid@ == u)
    &&& (n_uuid matches Some(u) ==> p.node_uuid@ == u)
}

pub open spec fn selection(
    topic: Option<Seq<char>>,
    p_uuid: Option<Seq<char>>,
    n_uuid: Option<Seq<char>>,
) -> spec_fn(Publisher) -> bool {
    |p: Publisher| selects(p, topic, p_uuid, n_uuid)
}

pub open spec fn rejection(
    topic: Option<Seq<char>>,
    p_uuid: Option<Seq<char>>,
    n_uuid: Option<Seq<char>>,
) -> spec_fn(Publisher) -> bool {
    |p: Publisher| !selects(p, topic, p_uuid, n_uuid)
}

/// Some stored record matches the given parts.
pub open spec fn any_selected(
    s: Seq<Publisher>,
    topic: Option<Seq<char>>,
    p_uuid: Option<Seq<char>>,
    n_uuid: Option<Seq<char>>,
) -> bool {
    exists|i: int| 0 <= i < s.len() && selects(#[trigger] s[i], topic, p_uuid, n_uuid)
}

/// `p` publishes messages of type `msg_type`.
pub open spec fn publishes_type(p: Publisher, msg_type: Seq<char>) -> bool {
    p.pub_type matches Some(PubType::MsgPub(m)) && m.msg_type@ == msg_type
}

/// The distinct topics of `s`, in order of first appearance.
pub open spec fn topics_of(s: Seq<Publisher>) -> Seq<Seq<char>>
    decreases s.len(),
{
    if s.len() == 0 {
        Seq::empty()
    } else {
        let rest = topics_of(s.drop_last());
        if rest.contains(s.last().topic@) {
            rest
        } else {
            rest.push(s.last().topic@)
        }
    }
}

/// Publisher records, in the order in which they were added.
pub struct DiscoveryStore {
    publishers: Vec<Publisher>,
}

impl View for DiscoveryStore {
    type V = Seq<Publisher>;

    closed spec fn view(&self) -> Seq<Publisher> {
        self.publishers@
    }
}

fn selects_exec(p: &Publisher, topic: Option<&str>, p_uuid: Option<&str>, n_uuid: Option<&str>) -> (r: bool)
    ensures
        r == selects(*p, opt_view(topic), opt_view(p_uuid), opt_view(n_uuid)),
{
    let t = match topic {
        Some(t) => str_eq(p.topic.as_str(), t),
        None => true,
    };
    let u = match p_uuid {
        Some(u) => str_eq(p.process_uuid.as_str(), u),
        None => true,
    };
    let n = match n_uuid {
        Some(n) => str_eq(p.node_uuid.as_str(), n),
        None => true,
    };
    t && u && n
}

impl DiscoveryStore {
    /// At most one record per topic, process and node.
    pub open spec fn wf(&self) -> bool {
        forall|i: int, j: int|
            0 <= i < j < self@.len() ==> !same_key(#[trigger] self@[i], #[trigger] self@[j])
    }

    /// An empty store.
    pub fn new() -> (r: Self)
        ensures
            r@ == Seq::<Publisher>::empty(),
            r.wf(),
    {
        DiscoveryStore { publishers: Vec::new() }
    }

    fn position(&self, topic: Option<&str>, p_uuid: Option<&str>, n_uuid: Option<&str>) -> (r: Option<usize>)
        ensures
            match r {
                Some(i) => i < self@.len() && selects(self@[i as int], opt_view(topic), opt_view(p_uuid), opt_view(n_uuid)),
                None => !any_selected(self@, opt_view(topic), opt_view(p_uuid), opt_view(n_uuid)),
            },
    {
        let n = self.publishers.len();
        let mut i: usize = 0;
        while i < n
            invariant
                n == self@.len(),
                self@ == self.publishers@,
                i <= n,
                forall|j: int| 0 <= j < i ==> !selects(#[trigger] self@[j], opt_view(topic), opt_view(p_uuid), opt_view(n_uuid)),
            decreases n - i,
        {
            if selects_exec(&self.publishers[i], topic, p_uuid, n_uuid) {
                return Some(i);
            }
            i = i + 1;
        }
        None
    }

    fn selected(&self, topic: Option<&str>, p_uuid: Option<&str>, n_uuid: Option<&str>) -> (r: Vec<Publisher>)
        ensures
            r@ == self@.filter(selection(opt_view(topic), opt_view(p_uuid), opt_view(n_uuid))),
    {
        let ghost f = selection(opt_view(topic), opt_view(p_uuid), opt_view(n_uuid));
        let n = self.publishers.len();
        let mut out: Vec<Publisher> = Vec::new();
        let mut i: usize = 0;
        assert(self@.subrange(0, 0).filter(f) =~= Seq::<Publisher>::empty()) by {
            reveal(Seq::filter);
        }
        while i < n
            invariant
                n == self@.len(),
                self@ == self.publishers@,
                i <= n,
                out@ == self@.subrange(0, i as int).filter(f),
                f == selection(opt_view(topic), opt_view(p_uuid), opt_view(n_uuid)),
            decreases n - i,
        {
            let p = &self.publishers[i];
            proof {
                assert(self@.subrange(0, i + 1) =~= self@.subrange(0, i as int).push(self@[i as int]));
                self@.subrange(0, i as int).lemma_filter_push(self@[i as int], f);
                assert(f(self@[i as int]) == selects(self@[i as int], opt_view(topic), opt_view(p_uuid), opt_view(n_uuid)));
            }
            if selects_exec(p, topic, p_uuid, n_uuid) {
                out.push(p.duplicate());
            }
            i = i + 1;
        }
        assert(self@.subrange(0, n as int) =~= self@);
        out
    }

    fn retain_unselected(&mut self, topic: Option<&str>, p_uuid: Option<&str>, n_uuid: Option<&str>)
        requires
            old(self).wf(),
        ensures
            final(self)@ == old(self)@.filter(rejection(opt_view(topic), opt_view(p_uuid), opt_view(n_uuid))),
            final(self).wf(),
    {
        let ghost f = rejection(opt_view(topic), opt_view(p_uuid), opt_view(n_uuid));
        let ghost s = self@;
        let n = self.publishers.len();
        let mut kept: Vec<Publisher> = Vec::new();
        let mut i: usize = 0;
        assert(s.subrange(0, 0).filter(f) =~= Seq::<Publisher>::empty()) by {
            reveal(Seq::filter);
        }
        while i < n
            invariant
                n == s.len(),
                s == self.publishers@,
                i <= n,
                kept@ == s.subrange(0, i as int).filter(f),
                f == rejection(opt_view(topic), opt_view(p_uuid), opt_view(n_uuid)),
            decreases n - i,
        {
            let p = &self.publishers[i];
            proof {
                assert(s.subrange(0, i + 1) =~= s.subrange(0, i as int).push(s[i as int]));
                s.subrange(0, i as int).lemma_filter_push(s[i as int], f);
                assert(f(s[i as int]) == !selects(s[i as int], opt_view(topic), opt_view(p_uuid), opt_view(n_uuid)));
            }
            if !selects_exec(p, topic, p_uuid, n_uuid) {
                kept.push(p.duplicate());
            }
            i = i + 1;
        }
        assert(s.subrange(0, n as int) =~= s);
        proof {
            lemma_filter_keeps_keys_distinct(s, f);
        }
        self.publishers = kept;
    }

    /// Adds a record; fails if one with the same topic, process and node is
    /// already stored.
    pub fn add_publisher(&mut self, discovery_publisher: Publisher) -> (r: Result<(), StoreError>)
        requires
            old(self).wf(),
        ensures
            final(self).wf(),
            match r {
                Ok(()) => {
                    &&& !(exists|i: int| 0 <= i < old(self)@.len() && same_key(#[trigger] old(self)@[i], discovery_publisher))
                    &&& final(self)@ == old(self)@.push(discovery_publisher)
                },
                Err(e) => {
                    &&& e == StoreError::PublisherExists
                    &&& exists|i: int| 0 <= i < old(self)@.len() && same_key(#[trigger] old(self)@[i], discovery_publisher)
                    &&& final(self)@ == old(self)@
                },
            },
    {
        let found = self.position(
            Some(discovery_publisher.topic.as_str()),
            Some(discovery_publisher.process_uuid.as_str()),
            Some(discovery_publisher.node_uuid.as_str()),
        );
        match found {
            Some(i) => {
                assert(same_key(self@[i as int], discovery_publisher));
                Err(StoreError::PublisherExists)
            },
            None => {
                assert forall|i: int| 0 <= i < self@.len() implies !same_key(#[trigger] self@[i], discovery_publisher) by {
                    if same_key(self@[i], discovery_publisher) {
                        assert(selects(
                            self@[i],
                            Some(discovery_publisher.topic@),
                            Some(discovery_publisher.process_uuid@),
                            Some(discovery_publisher.node_uuid@),
                        ));
                    }
                }
                self.publishers.push(discovery_publisher);
                Ok(())
            },
        }
    }

    /// Removes the record of node `n_uuid` of process `p_uuid` on `topic`.
    pub fn del_publisher_by_node(&mut self, topic: &str, p_uuid: &str, n_uuid: &str) -> (r: Result<(), StoreError>)
        requires
            old(self).wf(),
        ensures
            final(self).wf(),
            r is Ok <==> any_selected(old(self)@, Some(topic@), Some(p_uuid@), Some(n_uuid@)),
            r matches Err(e) ==> e == StoreError::PublisherNotFound && final(self)@ == old(self)@,
            r is Ok ==> final(self)@ == old(self)@.filter(rejection(Some(topic@), Some(p_uuid@), Some(n_uuid@))),
    {
        if self.position(Some(topic), Some(p_uuid), Some(n_uuid)).is_none() {
            return Err(StoreError::PublisherNotFound);
        }
        self.retain_unselected(Some(topic), Some(p_uuid), Some(n_uuid));
        Ok(())
    }

    /// Removes every record of process `p_uuid`.
    pub fn del_publishers_by_process(&mut self, p_uuid: &str) -> (r: Result<(), StoreError>)
        requires
            old(self).wf(),
        ensures
            final(self).wf(),
            r is Ok <==> any_selected(old(self)@, None, Some(p_uuid@), None),
            r matches Err(e) ==> e == StoreError::PublisherNotFound && final(self)@ == old(self)@,
            r is Ok ==> final(self)@ == old(self)@.filter(rejection(None, Some(p_uuid@), None)),
    {
        if self.position(None, Some(p_uuid), None).is_none() {
            return Err(StoreError::PublisherNotFound);
        }
        self.retain_unselected(None, Some(p_uuid), None);
        Ok(())
    }

    /// Whether any record is stored for `topic`.
    pub fn has_topic(&self, topic: &str) -> (r: bool)
        ensures
            r == any_selected(self@, Some(topic@), None, None),
    {
        self.position(Some(topic), None, None).is_some()
    }

    /// Whether a message publisher of type `msg_type` is stored for `topic`.
    pub fn has_topic_and_msg_type(&self, topic: &str, msg_type: &str) -> (r: bool)
        ensures
            r == exists|i: int|
                0 <= i < self@.len() && (#[trigger] self@[i]).topic@ == topic@ && publishes_type(self@[i], msg_type@),
    {
        let n = self.publishers.len();
        let mut i: usize = 0;
        while i < n
            invariant
                n == self@.len(),
                self@ == self.publishers@,
                i <= n,
                forall|j: int| 0 <= j < i ==> !((#[trigger] self@[j]).topic@ == topic@ && publishes_type(self@[j], msg_type@)),
            decreases n - i,
        {
            let p = &self.publishers[i];
            if str_eq(p.topic.as_str(), topic) {
                match &p.pub_type {
                    Some(PubType::MsgPub(m)) => {
                        if str_eq(m.msg_type.as_str(), msg_type) {
                            return true;
                        }
                    },
                    _ => {},
                }
            }
            i = i + 1;
        }
        false
    }

    /// Whether process `p_uuid` has any record on `topic`.
    pub fn has_any_publishers(&self, topic: &str, p_uuid: &str) -> (r: bool)
        ensures
            r == any_selected(self@, Some(topic@), Some(p_uuid@), None),
    {
        self.position(Some(topic), Some(p_uuid), None).is_some()
    }

    /// Whether any record has the address `addr`.
    pub fn has_publisher(&self, addr: &str) -> (r: bool)
        ensures
            r == exists|i: int| 0 <= i < self@.len() && (#[trigger] self@[i]).address@ == addr@,
    {
        let n = self.publishers.len();
        let mut i: usize = 0;
        while i < n
            invariant
                n == self@.len(),
                self@ == self.publishers@,
                i <= n,
                forall|j: int| 0 <= j < i ==> (#[trigger] self@[j]).address@ != addr@,
            decreases n - i,
        {
            if str_eq(self.publishers[i].address.as_str(), addr) {
                return true;
            }
            i = i + 1;
        }
        false
    }

    /// The record of node `n_uuid` of process `p_uuid` on `topic`.
    pub fn publisher(&self, topic: &str, p_uuid: &str, n_uuid: &str) -> (r: Option<&Publisher>)
        ensures
            match r {
                Some(p) => exists|i: int| 0 <= i < self@.len() && self@[i] == *p && selects(
                    #[trigger] self@[i],
                    Some(topic@),
                    Some(p_uuid@),
                    Some(n_uuid@),
                ),
                None => !any_selected(self@, Some(topic@), Some(p_uuid@), Some(n_uuid@)),
            },
    {
        match self.position(Some(topic), Some(p_uuid), Some(n_uuid)) {
            Some(i) => Some(&self.publishers[i]),
            None => None,
        }
    }

    /// The records that match each of the given parts, in the order in
    /// which they were added.
    pub fn publishers(&self, topic: Option<&str>, p_uuid: Option<&str>, n_uuid: Option<&str>) -> (r: Vec<Publisher>)
        ensures
            r@ == self@.filter(selection(opt_view(topic), opt_view(p_uuid), opt_view(n_uuid))),
    {
        self.selected(topic, p_uuid, n_uuid)
    }

    /// The records on `topic`.
    pub fn publishers_by_topic(&self, topic: &str) -> (r: Vec<Publisher>)
        ensures
            r@ == self@.filter(selection(Some(topic@), None, None)),
    {
        self.selected(Some(topic), None, None)
    }

    /// The records of process `p_uuid`.
    pub fn publishers_by_process(&self, p_uuid: &str) -> (r: Vec<Publisher>)
        ensures
            r@ == self@.filter(selection(None, Some(p_uuid@), None)),
    {
        self.selected(None, Some(p_uuid), None)
    }

    /// The records of node `n_uuid` of process `p_uuid`.
    pub fn publishers_by_node(&self, p_uuid: &str, n_uuid: &str) -> (r: Vec<Publisher>)
        ensures
            r@ == self@.filter(selection(None, Some(p_uuid@), Some(n_uuid@))),
    {
        self.selected(None, Some(p_uuid), Some(n_uuid))
    }

    /// The topics that have records, each once, in order of first appearance.
    pub fn topic_list(&self) -> (r: Vec<String>)
        ensures
            r@.map_values(|s: String| s@) == topics_of(self@),
    {
        let n = self.publishers.len();
        let mut out: Vec<String> = Vec::new();
        let mut i: usize = 0;
        assert(self@.subrange(0, 0) =~= Seq::<Publisher>::empty());
        while i < n
            invariant
                n == self@.len(),
                self@ == self.publishers@,
                i <= n,
                out@.map_values(|s: String| s@) == topics_of(self@.subrange(0, i as int)),
            decreases n - i,
        {
            let ghost prev = self@.subrange(0, i as int);
            assert(self@.subrange(0, i + 1).drop_last() =~= prev);
            let t = &self.publishers[i].topic;
            let mut seen = false;
            let mut k: usize = 0;
            while k < out.len()
                invariant
                    k <= out@.len(),
                    out@.map_values(|s: String| s@) == topics_of(prev),
                    seen == exists|j: int| 0 <= j < k && (#[trigger] out@[j])@ == t@,
                decreases out@.len() - k,
            {
                if out[k] == *t {
                    seen = true;
                }
                k = k + 1;
            }
            proof {
                let m = out@.map_values(|s: String| s@);
                if seen {
                    let j = choose|j: int| 0 <= j < k && (#[trigger] out@[j])@ == t@;
                    assert(m[j] == t@);
                } else {
                    assert forall|j: int| 0 <= j < m.len() implies m[j] != t@ by {
                        assert(m[j] == out@[j]@);
                    }
                }
            }
            if !seen {
                out.push(t.clone());
                proof {
                    assert(out@.map_values(|s: String| s@) =~= topics_of(prev).push(t@));
                }
            }
            i = i + 1;
        }
        assert(self@.subrange(0, n as int) =~= self@);
        out
    }
}

proof fn lemma_filter_keeps_keys_distinct(s: Seq<Publisher>, f: spec_fn(Publisher) -> bool)
    requires
        forall|i: int, j: int| 0 <= i < j < s.len() ==> !same_key(#[trigger] s[i], #[trigger] s[j]),
    ensures
        forall|i: int, j: int|
            0 <= i < j < s.filter(f).len() ==> !same_key(#[trigger] s.filter(f)[i], #[trigger] s.filter(f)[j]),
    decreases s.len(),
{
    reveal(Seq::filter);
    if s.len() > 0 {
        let t = s.drop_last();
        assert forall|i: int, j: int| 0 <= i < j < t.len() implies !same_key(#[trigger] t[i], #[trigger] t[j]) by {
            assert(t[i] == s[i] && t[j] == s[j]);
        }
        lemma_filter_keeps_keys_distinct(t, f);
        if f(s.last()) {
            let ft = t.filter(f);
            let fs = s.filter(f);
            assert(fs == ft.push(s.last()));
            assert forall|i: int, j: int| 0 <= i < j < fs.len() implies !same_key(#[trigger] fs[i], #[trigger] fs[j]) by {
                if j == fs.len() - 1 {
                    t.lemma_filter_contains_rev(f, ft[i]);
                    assert(ft.contains(ft[i]));
                    let k = choose|k: int| 0 <= k < t.len() && t[k] == ft[i];
                    assert(s[k] == t[k]);
                    assert(!same_key(s[k], s[s.len() - 1]));
                } else {
                    assert(fs[i] == ft[i] && fs[j] == ft[j]);
                }
            }
        }
    }
}


pub open spec fn bool_text(b: bool) -> Seq<char> {
    if b { "true"@ } else { "false"@ }
}

/// The lines that describe one record.
pub open spec fn record_lines(p: Publisher) -> Seq<Seq<char>> {
    seq![
        "Publisher:"@,
        "\ttopic: "@ + p.topic@,
        "\taddress: "@ + p.address@,
        "\tprocess_uuid: "@ + p.process_uuid@,
        "\tnode_uuid: "@ + p.node_uuid@,
    ] + match p.pub_type {
        Some(PubType::MsgPub(m)) => seq![
            "\tpub_type: MsgPub"@,
            "\t\tctrl: "@ + m.ctrl@,
            "\t\tthrottled: "@ + bool_text(m.throttled),
            "\t\tmsgs_per_sec: "@ + decimal_digits(m.msgs_per_sec as nat),
            "\t\tmsg_type: "@ + m.msg_type@,
        ],
        Some(PubType::SrvPub(v)) => seq![
            "\tpub_type: SrvPub:"@,
            "\t\tsocket_id: "@ + v.socket_id@,
            "\t\trequest_type: "@ + v.request_type@,
            "\t\tresponse_type: "@ + v.response_type@,
        ],
        None => Seq::<Seq<char>>::empty(),
    }
}

/// The lines that describe the records of `s`, one block per record.
pub open spec fn store_lines(s: Seq<Publisher>) -> Seq<Seq<char>>
    decreases s.len(),
{
    if s.len() == 0 {
        Seq::empty()
    } else {
        store_lines(s.drop_last()) + record_lines(s.last())
    }
}

pub open spec fn line_views(v: Seq<String>) -> Seq<Seq<char>> {
    v.map_values(|s: String| s@)
}

fn push_line(out: &mut Vec<String>, s: String)
    ensures
        line_views(final(out)@) == line_views(old(out)@).push(s@),
{
    out.push(s);
    assert(line_views(out@) =~= line_views(old(out)@).push(s@));
}

impl DiscoveryStore {
    /// Appends the lines that describe `publisher` to `out`.
    pub fn print_publisher(publisher: &Publisher, out: &mut Vec<String>)
        ensures
            line_views(final(out)@) == line_views(old(out)@) + record_lines(*publisher),
    {
        let ghost start = line_views(out@);
        push_line(out, String::from_str("Publisher:"));
        push_line(out, prefixed("\ttopic: ", publisher.topic.as_str()));
        push_line(out, prefixed("\taddress: ", publisher.address.as_str()));
        push_line(out, prefixed("\tprocess_uuid: ", publisher.process_uuid.as_str()));
        push_line(out, prefixed("\tnode_uuid: ", publisher.node_uuid.as_str()));
        match &publisher.pub_type {
            Some(PubType::MsgPub(m)) => {
                push_line(out, String::from_str("\tpub_type: MsgPub"));
                push_line(out, prefixed("\t\tctrl: ", m.ctrl.as_str()));
                let flag = if m.throttled { String::from_str("true") } else { String::from_str("false") };
                push_line(out, prefixed("\t\tthrottled: ", flag.as_str()));
                let rate = decimal(m.msgs_per_sec);
                push_line(out, prefixed("\t\tmsgs_per_sec: ", rate.as_str()));
                push_line(out, prefixed("\t\tmsg_type: ", m.msg_type.as_str()));
            },
            Some(PubType::SrvPub(v)) => {
                push_line(out, String::from_str("\tpub_type: SrvPub:"));
                push_line(out, prefixed("\t\tsocket_id: ", v.socket_id.as_str()));
                push_line(out, prefixed("\t\trequest_type: ", v.request_type.as_str()));
                push_line(out, prefixed("\t\tresponse_type: ", v.response_type.as_str()));
            },
            None => {},
        }
        assert(line_views(out@) =~= start + record_lines(*publisher));
    }

    /// The lines that describe every record, in the order in which they
    /// were added.
    pub fn print(&self) -> (r: Vec<String>)
        ensures
            line_views(r@) == store_lines(self@),
    {
        let mut out: Vec<String> = Vec::new();
        let mut i: usize = 0;
        assert(line_views(out@) =~= store_lines(self@.subrange(0, 0)));
        while i < self.publishers.len()
            invariant
                i <= self@.len(),
                self@ == self.publishers@,
                line_views(out@) == store_lines(self@.subrange(0, i as int)),
            decreases self@.len() - i,
        {
            Self::print_publisher(&self.publishers[i], &mut out);
            assert(self@.subrange(0, i + 1).drop_last() =~= self@.subrange(0, i as int));
            i = i + 1;
        }
        assert(self@.subrange(0, i as int) =~= self@);
        out
    }
}
} // verus!
