//! Options of advertisements and of nodes.
use vstd::prelude::*;
use vstd::string::StringExecFns;

use crate::discovery_types::Scope;
use crate::topic::{fully_qualified_name, is_valid_topic, qualified, valid_namespace, valid_partition, valid_topic, TopicError, MAX_NAME_LENGTH};
use crate::text::str_eq;

verus! {

/// The rate that means "not throttled".
pub const UNTHROTTLED: u64 = 0xffff_ffff_ffff_ffff;

/// How a topic is advertised: its scope and its rate limit.
#[derive(Debug, Clone, Copy, PartialEq, Eq, Structural)]
pub struct AdvertiseOptions {
    scope: Scope,
    msgs_per_sec: u64,
}

impl AdvertiseOptions {
    pub closed spec fn spec_scope(&self) -> Scope {
        self.scope
    }

    pub closed spec fn spec_msgs_per_sec(&self) -> u64 {
        self.msgs_per_sec
    }

    /// Scope `All`, not throttled.
    pub fn new() -> (r: Self)
        ensures
            r.spec_scope() == Scope::All,
            r.spec_msgs_per_sec() == UNTHROTTLED,
    {
        AdvertiseOptions { scope: Scope::All, msgs_per_sec: UNTHROTTLED }
    }

    pub fn scope(&self) -> (r: Scope)
        ensures
            r == self.spec_scope(),
    {
        self.scope
    }

    pub fn set_scope(&mut self, scope: Scope)
        ensures
            final(self).spec_scope() == scope,
            final(self).spec_msgs_per_sec() == old(self).spec_msgs_per_sec(),
    {
        self.scope = scope;
    }

    pub fn msgs_per_sec(&self) -> (r: u64)
        ensures
            r == self.spec_msgs_per_sec(),
    {
        self.msgs_per_sec
    }

    pub fn set_msgs_per_sec(&mut self, msgs_per_sec: u64)
        ensures
            final(self).spec_msgs_per_sec() == msgs_per_sec,
            final(self).spec_scope() == old(self).spec_scope(),
    {
        self.msgs_per_sec = msgs_per_sec;
    }

    /// Whether a rate limit is set.
    pub fn throttled(&self) -> (r: bool)
        ensures
            r == (self.spec_msgs_per_sec() != UNTHROTTLED),
    {
        self.msgs_per_sec != UNTHROTTLED
    }
}

impl Default for AdvertiseOptions {
    fn default() -> (r: Self)
        ensures
            r.spec_scope() == Scope::All,
            r.spec_msgs_per_sec() == UNTHROTTLED,
    {
        Self::new()
    }
}

/// Why a topic remap was refused.
#[derive(Debug, Clone, Copy, PartialEq, Eq, Structural)]
pub enum OptionsError {
    /// One of the two topics breaks the naming rule.
    InvalidTopic,
    /// The source topic is already remapped.
    AlreadyRemapped,
}

/// A remap of one topic name to another.
pub struct TopicRemap {
    pub from: String,
    pub to: String,
}

/// Namespace, partition and topic remaps of a node.
pub struct NodeOptions {
    ns: String,
    partition: String,
    topics_remap: Vec<TopicRemap>,
}

/// Relies on `whoami::hostname`: the name of this machine (lower case, with
/// a fixed fallback); nothing is promised about it.
#[verifier::external_body]
#[allow(deprecated)]
pub fn hostname() -> (r: String) {
    whoami::hostname()
}

/// Relies on `whoami::username`: the name of the user running this process
/// (with a fixed fallback); nothing is promised about it.
#[verifier::external_body]
pub fn username() -> (r: String) {
    whoami::username()
}

/// The default partition: `<hostname>:<username>`.
pub fn default_partition(hostname: &str, username: &str) -> (r: String)
    ensures
        r@ == hostname@ + seq![':'] + username@,
{
    let mut p = String::from_str(hostname);
    let colon = ":";
    proof {
        reveal_strlit(":");
    }
    p.append(colon);
    p.append(username);
    p
}

impl NodeOptions {
    pub closed spec fn spec_namespace(&self) -> Seq<char> {
        self.ns@
    }

    pub closed spec fn spec_partition(&self) -> Seq<char> {
        self.partition@
    }

    /// The remaps, in the order in which they were added.
    pub closed spec fn remaps(&self) -> Seq<(Seq<char>, Seq<char>)> {
        self.topics_remap@.map_values(|r: TopicRemap| (r.from@, r.to@))
    }

    /// Each topic is remapped at most once.
    pub closed spec fn wf(&self) -> bool {
        forall|i: int, j: int| 0 <= i < j < self.remaps().len() ==> (#[trigger] self.remaps()[i]).0 != (#[trigger] self.remaps()[j]).0
    }

    /// Options with the given namespace and partition and no remaps.
    pub fn with_partition(ns: &str, partition: &str) -> (r: Self)
        ensures
            r.wf(),
            r.spec_namespace() == ns@,
            r.spec_partition() == partition@,
            r.remaps() == Seq::<(Seq<char>, Seq<char>)>::empty(),
    {
        let r = NodeOptions { ns: String::from_str(ns), partition: String::from_str(partition), topics_remap: Vec::new() };
        assert(r.remaps() =~= Seq::<(Seq<char>, Seq<char>)>::empty());
        r
    }

    /// An empty namespace, the partition `<hostname>:<username>`, no remaps.
    pub fn new() -> (r: Self)
        ensures
            r.wf(),
            r.spec_namespace() == Seq::<char>::empty(),
            exists|host: Seq<char>, user: Seq<char>| r.spec_partition() == host + seq![':'] + user,
            r.remaps() == Seq::<(Seq<char>, Seq<char>)>::empty(),
    {
        let host = hostname();
        let user = username();
        let partition = default_partition(host.as_str(), user.as_str());
        let empty = String::new();
        let r = Self::with_partition(empty.as_str(), partition.as_str());
        assert(r.spec_partition() == host@ + seq![':'] + user@);
        r
    }

    pub fn namespace(&self) -> (r: &String)
        ensures
            r@ == self.spec_namespace(),
    {
        &self.ns
    }

    pub fn set_namespace(&mut self, name_space: &str)
        requires
            old(self).wf(),
        ensures
            final(self).wf(),
            final(self).spec_namespace() == name_space@,
            final(self).spec_partition() == old(self).spec_partition(),
            final(self).remaps() == old(self).remaps(),
    {
        self.ns = String::from_str(name_space);
        assert(self.remaps() == old(self).remaps());
    }

    /// The partition of this node.
    pub fn partition(&self) -> (r: &String)
        ensures
            r@ == self.spec_partition(),
    {
        &self.partition
    }

    pub fn set_partition(&mut self, partition: &str)
        requires
            old(self).wf(),
        ensures
            final(self).wf(),
            final(self).spec_partition() == partition@,
            final(self).spec_namespace() == old(self).spec_namespace(),
            final(self).remaps() == old(self).remaps(),
    {
        self.partition = String::from_str(partition);
        assert(self.remaps() == old(self).remaps());
    }

    fn remap_index(&self, from_topic: &str) -> (r: Option<usize>)
        ensures
            match r {
                Some(i) => i < self.remaps().len() && self.remaps()[i as int].0 == from_topic@,
                None => forall|i: int| 0 <= i < self.remaps().len() ==> (#[trigger] self.remaps()[i]).0 != from_topic@,
            },
    {
        let mut i: usize = 0;
        while i < self.topics_remap.len()
            invariant
                i <= self.topics_remap@.len(),
                forall|j: int| 0 <= j < i ==> (#[trigger] self.remaps()[j]).0 != from_topic@,
            decreases self.topics_remap@.len() - i,
        {
            if str_eq(self.topics_remap[i].from.as_str(), from_topic) {
                return Some(i);
            }
            i = i + 1;
        }
        None
    }

    /// Remaps `from_topic` to `to_topic`; both must be valid topics and
    /// `from_topic` not remapped yet.
    pub fn add_topic_remap(&mut self, from_topic: &str, to_topic: &str) -> (r: Result<(), OptionsError>)
        requires
            old(self).wf(),
        ensures
            final(self).wf(),
            final(self).spec_namespace() == old(self).spec_namespace(),
            final(self).spec_partition() == old(self).spec_partition(),
            match r {
                Ok(()) => {
                    &&& valid_topic(from_topic@) && valid_topic(to_topic@)
                    &&& forall|i: int| 0 <= i < old(self).remaps().len() ==> (#[trigger] old(self).remaps()[i]).0 != from_topic@
                    &&& final(self).remaps() == old(self).remaps().push((from_topic@, to_topic@))
                },
                Err(OptionsError::InvalidTopic) => !(valid_topic(from_topic@) && valid_topic(to_topic@))
                    && final(self).remaps() == old(self).remaps(),
                Err(OptionsError::AlreadyRemapped) => valid_topic(from_topic@) && valid_topic(to_topic@)
                    && (exists|i: int| 0 <= i < old(self).remaps().len() && (#[trigger] old(self).remaps()[i]).0 == from_topic@)
                    && final(self).remaps() == old(self).remaps(),
            },
    {
        if !is_valid_topic(from_topic) || !is_valid_topic(to_topic) {
            return Err(OptionsError::InvalidTopic);
        }
        if let Some(i) = self.remap_index(from_topic) {
            return Err(OptionsError::AlreadyRemapped);
        }
        let ghost before = self.remaps();
        self.topics_remap.push(TopicRemap { from: String::from_str(from_topic), to: String::from_str(to_topic) });
        assert(self.remaps() =~= before.push((from_topic@, to_topic@)));
        Ok(())
    }

    /// The topic that `from_topic` is remapped to, if any.
    pub fn topic_remap(&self, from_topic: &str) -> (r: Option<&String>)
        requires
            self.wf(),
        ensures
            match r {
                Some(t) => exists|i: int| 0 <= i < self.remaps().len() && (#[trigger] self.remaps()[i]) == (from_topic@, t@),
                None => forall|i: int| 0 <= i < self.remaps().len() ==> (#[trigger] self.remaps()[i]).0 != from_topic@,
            },
    {
        match self.remap_index(from_topic) {
            Some(i) => Some(&self.topics_remap[i].to),
            None => None,
        }
    }
}

impl Default for NodeOptions {
    fn default() -> (r: Self)
        ensures
            r.wf(),
            r.spec_namespace() == Seq::<char>::empty(),
            r.remaps() == Seq::<(Seq<char>, Seq<char>)>::empty(),
    {
        Self::new()
    }
}


impl NodeOptions {
    /// The topic that `topic` is remapped to, or `topic` itself.
    pub open spec fn remapped(&self, topic: Seq<char>) -> Seq<char> {
        if exists|i: int| 0 <= i < self.remaps().len() && (#[trigger] self.remaps()[i]).0 == topic {
            self.remaps()[choose|i: int| 0 <= i < self.remaps().len() && (#[trigger] self.remaps()[i]).0 == topic].1
        } else {
            topic
        }
    }

    /// A remap that `topic_remap` reports is the one that `remapped` takes.
    pub proof fn lemma_remapped(&self, topic: Seq<char>, to: Seq<char>)
        requires
            self.wf(),
            exists|i: int| 0 <= i < self.remaps().len() && #[trigger] self.remaps()[i] == (topic, to),
        ensures
            self.remapped(topic) == to,
    {
        let j = choose|i: int| 0 <= i < self.remaps().len() && #[trigger] self.remaps()[i] == (topic, to);
        let k = choose|i: int| 0 <= i < self.remaps().len() && (#[trigger] self.remaps()[i]).0 == topic;
        if j < k {
            assert(self.remaps()[j].0 != self.remaps()[k].0);
        } else if k < j {
            assert(self.remaps()[k].0 != self.remaps()[j].0);
        }
    }

    /// The fully qualified name of `topic` for a node with these options:
    /// remapped first, then placed in the node's partition and namespace.
    pub fn create_fully_qualified_topic(&self, topic: &str) -> (r: Result<String, TopicError>)
        requires
            self.wf(),
        ensures
            match r {
                Ok(name) => name@ == qualified(self.spec_partition(), self.spec_namespace(), self.remapped(topic@))
                    && name@.len() <= MAX_NAME_LENGTH,
                Err(TopicError::InvalidName) => !(valid_partition(self.spec_partition()) && valid_namespace(
                    self.spec_namespace(),
                ) && valid_topic(self.remapped(topic@))),
                Err(TopicError::NameTooLong) => qualified(self.spec_partition(), self.spec_namespace(), self.remapped(topic@)).len()
                    > MAX_NAME_LENGTH,
                Err(TopicError::Malformed) => false,
            },
    {
        let t = match self.topic_remap(topic) {
            Some(to) => to.as_str(),
            None => topic,
        };
        proof {
            if exists|i: int| 0 <= i < self.remaps().len() && (#[trigger] self.remaps()[i]).0 == topic@ {
                let k = choose|i: int| 0 <= i < self.remaps().len() && (#[trigger] self.remaps()[i]).0 == topic@;
                let j = choose|i: int| 0 <= i < self.remaps().len() && (#[trigger] self.remaps()[i]) == (topic@, t@);
                if j != k {
                    if j < k {
                        assert(self.remaps()[j].0 != self.remaps()[k].0);
                    } else {
                        assert(self.remaps()[k].0 != self.remaps()[j].0);
                    }
                }
            }
        }
        fully_qualified_name(self.partition.as_str(), self.ns.as_str(), t)
    }
}

/// The discovery ports to use: the configured ones, unless they coincide, in
/// which case the service port moves by one (up, or down from 65535).
pub fn distinct_ports(msg_port: u16, srv_port: u16) -> (r: (u16, u16))
    ensures
        r.0 == msg_port,
        r.0 != r.1,
        msg_port != srv_port ==> r.1 == srv_port,
        msg_port == srv_port && srv_port < 65535 ==> r.1 == srv_port + 1,
        msg_port == srv_port && srv_port == 65535 ==> r.1 == 65534,
{
    if msg_port == srv_port {
        if msg_port < 65535 {
            (msg_port, srv_port + 1)
        } else {
            (msg_port, srv_port - 1)
        }
    } else {
        (msg_port, srv_port)
    }
}
} // verus!
