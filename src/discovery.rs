//! The decisions of a discovery engine: what to store, what to send and
//! which callbacks to fire, for each received message, local request and
//! timer tick. Sockets and timers stay with the caller, which performs the
//! returned actions.
use vstd::prelude::*;
use vstd::string::StringExecFns;

use crate::discovery_store::{any_selected, rejection, selection, DiscoveryStore, StoreError};
use crate::discovery_types::{DiscContents, Discovery, Flags, Publisher, Scope, Subscriber, Type};

verus! {

/// Wire protocol version.
pub const WIRE_VERSION: u32 = 10;

/// Offset added to the version by peers that exchange topic statistics.
pub const STATISTICS_VERSION_OFFSET: u32 = 100;

/// Default activity sweep interval (ms).
pub const DEF_ACTIVITY_INTERVAL: u64 = 100;

/// Default heartbeat interval (ms).
pub const DEF_HEARTBEAT_INTERVAL: u64 = 1000;

/// Default silence interval (ms).
pub const DEF_SILENCE_INTERVAL: u64 = 3000;

/// The protocol version, shifted for peers that exchange statistics.
pub fn version(statistics: bool) -> (r: u32)
    ensures
        r == if statistics { WIRE_VERSION + STATISTICS_VERSION_OFFSET } else { WIRE_VERSION as int },
{
    if statistics {
        WIRE_VERSION + STATISTICS_VERSION_OFFSET
    } else {
        WIRE_VERSION
    }
}

/// The callback to fire.
#[derive(Debug, Clone, Copy, PartialEq, Eq, Structural)]
pub enum Notice {
    Connection,
    Disconnection,
    Registration,
    Unregistration,
}

/// What the caller must do.
#[derive(Debug)]
pub enum Action {
    /// Send the message to the multicast group.
    Multicast(Discovery),
    /// Send the message to every remembered relay peer.
    Unicast(Discovery),
    /// Remember the sender of the message being handled as a relay peer.
    RememberSender,
    /// Fire a callback with a record.
    Notify(Notice, Publisher),
}

/// How a received message is forwarded.
#[derive(Debug, Clone, Copy, PartialEq, Eq, Structural)]
pub enum RelayDecision {
    /// Re-broadcast to the group with `no_relay`, remember the sender, and
    /// handle nothing more.
    ToMulticast,
    /// Forward by unicast to the relay peers with `relay`, then handle it.
    ToUnicast,
    /// Forward nowhere; handle it.
    Handle,
}

pub open spec fn relay_spec(flags: Option<Flags>) -> RelayDecision {
    match flags {
        Some(f) => if f.relay {
            RelayDecision::ToMulticast
        } else if !f.no_relay {
            RelayDecision::ToUnicast
        } else {
            RelayDecision::Handle
        },
        None => RelayDecision::ToUnicast,
    }
}

/// The forwarding rule: a relayed message goes back to the group, a message
/// that may still be relayed goes to the unicast peers.
pub fn relay_decision(flags: Option<Flags>) -> (r: RelayDecision)
    ensures
        r == relay_spec(flags),
{
    match flags {
        Some(f) => {
            if f.relay {
                RelayDecision::ToMulticast
            } else if !f.no_relay {
                RelayDecision::ToUnicast
            } else {
                RelayDecision::Handle
            }
        },
        None => RelayDecision::ToUnicast,
    }
}

/// A record of the given scope, announced by a sender that is or is not on
/// this host, may be taken in.
pub open spec fn admits(scope: Scope, sender_local: bool) -> bool {
    scope == Scope::All || (scope == Scope::Host && sender_local)
}

pub fn scope_admits(scope: Scope, sender_local: bool) -> (r: bool)
    ensures
        r == admits(scope, sender_local),
{
    match scope {
        Scope::All => true,
        Scope::Host => sender_local,
        Scope::Process => false,
    }
}

/// An IPv4 address (most significant octet first) is local when it is one of
/// the host's interfaces or a loopback address.
pub open spec fn local_ip(interfaces: Seq<u32>, ip: u32) -> bool {
    interfaces.contains(ip) || ip / 0x100_0000 == 127
}

pub fn is_local_ip(interfaces: &Vec<u32>, from_ip: u32) -> (r: bool)
    ensures
        r == local_ip(interfaces@, from_ip),
{
    let mut i: usize = 0;
    while i < interfaces.len()
        invariant
            i <= interfaces@.len(),
            forall|j: int| 0 <= j < i ==> interfaces@[j] != from_ip,
        decreases interfaces@.len() - i,
    {
        if interfaces[i] == from_ip {
            return true;
        }
        i = i + 1;
    }
    from_ip / 0x100_0000 == 127
}

/// The records handed to the callback of kind `k`, in order.
pub open spec fn notices(acts: Seq<Action>, k: Notice) -> Seq<Publisher>
    decreases acts.len(),
{
    if acts.len() == 0 {
        Seq::empty()
    } else {
        let rest = notices(acts.drop_last(), k);
        match acts.last() {
            Action::Notify(n, p) => if n == k {
                rest.push(p)
            } else {
                rest
            },
            _ => rest,
        }
    }
}

/// The messages sent to the multicast group, in order.
pub open spec fn multicasts(acts: Seq<Action>) -> Seq<Discovery>
    decreases acts.len(),
{
    if acts.len() == 0 {
        Seq::empty()
    } else {
        let rest = multicasts(acts.drop_last());
        match acts.last() {
            Action::Multicast(m) => rest.push(m),
            _ => rest,
        }
    }
}

/// The messages sent to the relay peers, in order.
pub open spec fn unicasts(acts: Seq<Action>) -> Seq<Discovery>
    decreases acts.len(),
{
    if acts.len() == 0 {
        Seq::empty()
    } else {
        let rest = unicasts(acts.drop_last());
        match acts.last() {
            Action::Unicast(m) => rest.push(m),
            _ => rest,
        }
    }
}

/// The flags of a message sent on to the relay peers.
pub open spec fn relay_flags() -> Flags {
    Flags { relay: true, no_relay: false }
}

/// `u` is `m` carrying the flags `f`.
pub open spec fn flagged_copy(u: Discovery, m: Discovery, f: Flags) -> bool {
    &&& u.version == m.version
    &&& u.process_uuid == m.process_uuid
    &&& u.msg_type == m.msg_type
    &&& u.disc_contents == m.disc_contents
    &&& u.flags == Some(f)
}

/// After the first `k` unicasts, each unicast is the relay copy of the
/// multicast at the same place: every message sent to the group also goes,
/// flagged for relay, to the relay peers.
pub open spec fn mirrored_from(acts: Seq<Action>, k: int) -> bool {
    &&& unicasts(acts).len() == multicasts(acts).len() + k
    &&& forall|i: int| 0 <= i < multicasts(acts).len() ==> flagged_copy(unicasts(acts)[i + k], #[trigger] multicasts(acts)[i], relay_flags())
}

pub open spec fn mirrored(acts: Seq<Action>) -> bool {
    mirrored_from(acts, 0)
}

/// When a process was last heard from.
#[derive(Debug)]
pub struct Activity {
    pub process_uuid: String,
    pub last_seen: u64,
}

/// The state of one discovery engine.
pub struct DiscoveryEngine {
    pub version: u32,
    pub p_uuid: String,
    pub store: DiscoveryStore,
    pub activity: Vec<Activity>,
    pub host_interfaces: Vec<u32>,
    pub silence_interval: u64,
}

/// The processes whose silence has lasted longer than `silence` at `now`.
pub open spec fn silent(a: Activity, now: u64, silence: u64) -> bool {
    now > a.last_seen && now - a.last_seen > silence
}

fn push_action(acts: &mut Vec<Action>, a: Action)
    ensures
        final(acts)@ == old(acts)@.push(a),
        forall|k: Notice| notices(final(acts)@, k) == notices(old(acts)@, k) + match a {
            Action::Notify(n, p) => if n == k { seq![p] } else { Seq::empty() },
            _ => Seq::<Publisher>::empty(),
        },
        multicasts(final(acts)@) == multicasts(old(acts)@) + match a {
            Action::Multicast(m) => seq![m],
            _ => Seq::<Discovery>::empty(),
        },
        unicasts(final(acts)@) == unicasts(old(acts)@) + match a {
            Action::Unicast(m) => seq![m],
            _ => Seq::<Discovery>::empty(),
        },
{
    let ghost before = acts@;
    acts.push(a);
    proof {
        assert(acts@.drop_last() =~= before);
        assert forall|k: Notice| notices(acts@, k) == notices(before, k) + match a {
            Action::Notify(n, p) => if n == k { seq![p] } else { Seq::empty() },
            _ => Seq::<Publisher>::empty(),
        } by {
            assert(notices(acts@, k) =~= notices(before, k) + match a {
                Action::Notify(n, p) => if n == k { seq![p] } else { Seq::empty() },
                _ => Seq::<Publisher>::empty(),
            });
        }
        assert(multicasts(acts@) =~= multicasts(before) + match a {
            Action::Multicast(m) => seq![m],
            _ => Seq::<Discovery>::empty(),
        });
        assert(unicasts(acts@) =~= unicasts(before) + match a {
            Action::Unicast(m) => seq![m],
            _ => Seq::<Discovery>::empty(),
        });
    }
}

impl DiscoveryEngine {
    pub open spec fn wf(&self) -> bool {
        &&& self.store.wf()
        &&& forall|i: int, j: int|
            0 <= i < j < self.activity@.len() ==> (#[trigger] self.activity@[i]).process_uuid@
                != (#[trigger] self.activity@[j]).process_uuid@
    }

    /// A fresh engine for process `p_uuid`.
    pub fn new(p_uuid: &str, version: u32, host_interfaces: Vec<u32>) -> (r: Self)
        ensures
            r.wf(),
            r.p_uuid@ == p_uuid@,
            r.version == version,
            r.store@ == Seq::<Publisher>::empty(),
            r.activity@ == Seq::<Activity>::empty(),
            r.host_interfaces@ == host_interfaces@,
            r.silence_interval == DEF_SILENCE_INTERVAL,
    {
        DiscoveryEngine {
            version,
            p_uuid: String::from_str(p_uuid),
            store: DiscoveryStore::new(),
            activity: Vec::new(),
            host_interfaces,
            silence_interval: DEF_SILENCE_INTERVAL,
        }
    }
}


/// `m` is the message that engine `(version, p_uuid)` sends for a request of
/// kind `t` about `p`, before any relay flag is set.
pub open spec fn outgoing(m: Discovery, version: u32, p_uuid: Seq<char>, t: Type, p: Publisher) -> bool {
    &&& m.version == version
    &&& m.process_uuid@ == p_uuid
    &&& m.msg_type == t
    &&& m.flags.is_none()
    &&& match t {
        Type::Advertise | Type::Unadvertise | Type::NewConnection | Type::EndConnection => m.disc_contents
            == Some(DiscContents::Pub(p)),
        Type::Subscribe => m.disc_contents matches Some(DiscContents::Sub(s)) && s.topic@ == p.topic@,
        _ => m.disc_contents.is_none(),
    }
}

pub open spec fn no_notices(acts: Seq<Action>) -> bool {
    forall|k: Notice| #[trigger] notices(acts, k) == Seq::<Publisher>::empty()
}

/// The message that `m` is when sent with the given flags.
fn with_flags(m: &Discovery, flags: Flags) -> (r: Discovery)
    ensures
        r.version == m.version,
        r.process_uuid == m.process_uuid,
        r.msg_type == m.msg_type,
        r.flags == Some(flags),
        r.disc_contents == m.disc_contents,
{
    let disc_contents = match &m.disc_contents {
        Some(DiscContents::Pub(p)) => Some(DiscContents::Pub(p.duplicate())),
        Some(DiscContents::Sub(s)) => Some(DiscContents::Sub(Subscriber { topic: s.topic.clone() })),
        None => None,
    };
    Discovery {
        version: m.version,
        process_uuid: m.process_uuid.clone(),
        msg_type: m.msg_type,
        flags: Some(flags),
        disc_contents,
    }
}

impl DiscoveryEngine {
    /// The message of kind `t` about `publisher` that this engine sends.
    fn message(&self, t: Type, publisher: &Publisher) -> (r: Discovery)
        ensures
            outgoing(r, self.version, self.p_uuid@, t, *publisher),
    {
        let disc_contents = match t {
            Type::Advertise | Type::Unadvertise | Type::NewConnection | Type::EndConnection => Some(
                DiscContents::Pub(publisher.duplicate()),
            ),
            Type::Subscribe => Some(DiscContents::Sub(Subscriber { topic: publisher.topic.clone() })),
            _ => None,
        };
        Discovery {
            version: self.version,
            process_uuid: self.p_uuid.clone(),
            msg_type: t,
            flags: None,
            disc_contents,
        }
    }

    /// Queues the message of kind `t` about `publisher` for the group and,
    /// flagged for relay, for the unicast peers.
    fn send_all(&self, acts: &mut Vec<Action>, t: Type, publisher: &Publisher)
        ensures
            forall|k: Notice| #[trigger] notices(final(acts)@, k) == notices(old(acts)@, k),
            multicasts(final(acts)@).len() == multicasts(old(acts)@).len() + 1,
            multicasts(final(acts)@).drop_last() == multicasts(old(acts)@),
            outgoing(multicasts(final(acts)@).last(), self.version, self.p_uuid@, t, *publisher),
            unicasts(final(acts)@).len() == unicasts(old(acts)@).len() + 1,
            unicasts(final(acts)@).drop_last() == unicasts(old(acts)@),
            flagged_copy(unicasts(final(acts)@).last(), multicasts(final(acts)@).last(), relay_flags()),
            forall|k: int| 0 <= k && mirrored_from(old(acts)@, k) ==> #[trigger] mirrored_from(final(acts)@, k),
            final(acts)@.len() == old(acts)@.len() + 2,
            forall|i: int| 0 <= i < old(acts)@.len() ==> #[trigger] final(acts)@[i] == old(acts)@[i],
    {
        let m = self.message(t, publisher);
        let u = with_flags(&m, Flags { relay: true, no_relay: false });
        push_action(acts, Action::Multicast(m));
        let ghost mid = acts@;
        push_action(acts, Action::Unicast(u));
        proof {
            assert(multicasts(acts@) == multicasts(mid));
            assert(multicasts(acts@).drop_last() =~= multicasts(old(acts)@));
            assert(unicasts(mid) == unicasts(old(acts)@));
            assert(unicasts(acts@).drop_last() =~= unicasts(old(acts)@));
            assert forall|k: int| 0 <= k && mirrored_from(old(acts)@, k) implies #[trigger] mirrored_from(acts@, k) by {
                let mo = multicasts(old(acts)@);
                let uo = unicasts(old(acts)@);
                assert forall|i: int| 0 <= i < multicasts(acts@).len() implies flagged_copy(
                    unicasts(acts@)[i + k],
                    #[trigger] multicasts(acts@)[i],
                    relay_flags(),
                ) by {
                    if i < mo.len() {
                        assert(multicasts(acts@)[i] == mo[i]);
                        assert(unicasts(acts@)[i + k] == uo[i + k]);
                    }
                }
            }
            assert forall|k: Notice| #[trigger] notices(acts@, k) == notices(old(acts)@, k) by {
                assert(notices(acts@, k) =~= notices(old(acts)@, k));
            }
        }
    }

    /// Stores a record of this process and announces it, unless its scope is
    /// `Process`.
    pub fn advertise(&mut self, discovery_publisher: Publisher) -> (r: Result<Vec<Action>, StoreError>)
        requires
            old(self).wf(),
        ensures
            final(self).wf(),
            final(self).p_uuid == old(self).p_uuid,
            final(self).version == old(self).version,
            final(self).activity == old(self).activity,
            final(self).host_interfaces == old(self).host_interfaces,
            final(self).silence_interval == old(self).silence_interval,
            match r {
                Ok(acts) => {
                    &&& !(exists|i: int| 0 <= i < old(self).store@.len() && crate::discovery_store::same_key(#[trigger] old(self).store@[i], discovery_publisher))
                    &&& final(self).store@ == old(self).store@.push(discovery_publisher)
                    &&& no_notices(acts@)
                    &&& mirrored(acts@)
                    &&& discovery_publisher.scope == Scope::Process ==> acts@.len() == 0
                    &&& discovery_publisher.scope != Scope::Process ==> multicasts(acts@).len() == 1
                        && outgoing(multicasts(acts@)[0], old(self).version, old(self).p_uuid@, Type::Advertise, discovery_publisher)
                },
                Err(e) => {
                    &&& e == StoreError::PublisherExists
                    &&& exists|i: int| 0 <= i < old(self).store@.len() && crate::discovery_store::same_key(#[trigger] old(self).store@[i], discovery_publisher)
                    &&& final(self).store@ == old(self).store@
                },
            },
    {
        let p = discovery_publisher.duplicate();
        match self.store.add_publisher(discovery_publisher) {
            Err(e) => Err(e),
            Ok(()) => {
                let mut acts: Vec<Action> = Vec::new();
                if p.scope != Scope::Process {
                    self.send_all(&mut acts, Type::Advertise, &p);
                }
                Ok(acts)
            },
        }
    }

    /// Removes a record of this process and announces the removal, unless its
    /// scope is `Process`. Nothing happens when no such record is stored.
    pub fn unadvertise(&mut self, topic: &str, n_uuid: &str) -> (r: Vec<Action>)
        requires
            old(self).wf(),
        ensures
            final(self).wf(),
            final(self).p_uuid == old(self).p_uuid,
            final(self).version == old(self).version,
            final(self).activity == old(self).activity,
            final(self).host_interfaces == old(self).host_interfaces,
            final(self).silence_interval == old(self).silence_interval,
            no_notices(r@),
            mirrored(r@),
            any_selected(old(self).store@, Some(topic@), Some(old(self).p_uuid@), Some(n_uuid@))
                ==> final(self).store@ == old(self).store@.filter(rejection(Some(topic@), Some(old(self).p_uuid@), Some(n_uuid@))),
            !any_selected(old(self).store@, Some(topic@), Some(old(self).p_uuid@), Some(n_uuid@))
                ==> final(self).store@ == old(self).store@ && r@.len() == 0,
            any_selected(old(self).store@, Some(topic@), Some(old(self).p_uuid@), Some(n_uuid@)) ==> exists|i: int|
                0 <= i < old(self).store@.len() && crate::discovery_store::selects(
                    #[trigger] old(self).store@[i],
                    Some(topic@),
                    Some(old(self).p_uuid@),
                    Some(n_uuid@),
                ) && (old(self).store@[i].scope == Scope::Process ==> r@.len() == 0) && (old(self).store@[i].scope
                    != Scope::Process ==> multicasts(r@).len() == 1 && outgoing(
                    multicasts(r@)[0],
                    old(self).version,
                    old(self).p_uuid@,
                    Type::Unadvertise,
                    old(self).store@[i],
                )),
    {
        let found = match self.store.publisher(topic, self.p_uuid.as_str(), n_uuid) {
            Some(p) => Some(p.duplicate()),
            None => None,
        };
        let mut acts: Vec<Action> = Vec::new();
        match found {
            None => acts,
            Some(p) => {
                let _ = self.store.del_publisher_by_node(topic, self.p_uuid.as_str(), n_uuid);
                if p.scope != Scope::Process {
                    self.send_all(&mut acts, Type::Unadvertise, &p);
                }
                acts
            },
        }
    }

    /// Probes the network for `topic` and reports every record already known
    /// for it to the connection callback.
    pub fn discover(&self, topic: &str) -> (r: Vec<Action>)
        ensures
            notices(r@, Notice::Connection) == self.store@.filter(selection(Some(topic@), None, None)),
            notices(r@, Notice::Disconnection) == Seq::<Publisher>::empty(),
            notices(r@, Notice::Registration) == Seq::<Publisher>::empty(),
            notices(r@, Notice::Unregistration) == Seq::<Publisher>::empty(),
            multicasts(r@).len() == 1,
            multicasts(r@)[0].msg_type == Type::Subscribe,
            multicasts(r@)[0].disc_contents matches Some(DiscContents::Sub(s)) && s.topic@ == topic@,
            multicasts(r@)[0].version == self.version,
            multicasts(r@)[0].process_uuid@ == self.p_uuid@,
            multicasts(r@)[0].flags.is_none(),
            mirrored(r@),
            r@.len() == 2 + self.store@.filter(selection(Some(topic@), None, None)).len(),
    {
        let mut acts: Vec<Action> = Vec::new();
        let probe = Publisher::bare(topic, self.p_uuid.as_str());
        self.send_all(&mut acts, Type::Subscribe, &probe);
        let known = self.store.publishers_by_topic(topic);
        let ghost base = acts@;
        let n = known.len();
        let mut i: usize = 0;
        while i < n
            invariant
                n == known@.len(),
                i <= n,
                notices(acts@, Notice::Connection) == known@.subrange(0, i as int),
                notices(acts@, Notice::Disconnection) == Seq::<Publisher>::empty(),
                notices(acts@, Notice::Registration) == Seq::<Publisher>::empty(),
                notices(acts@, Notice::Unregistration) == Seq::<Publisher>::empty(),
                multicasts(acts@).len() == 1,
                multicasts(acts@)[0].msg_type == Type::Subscribe,
                multicasts(acts@)[0].disc_contents matches Some(DiscContents::Sub(s)) && s.topic@ == topic@,
                multicasts(acts@)[0].version == self.version,
                multicasts(acts@)[0].process_uuid@ == self.p_uuid@,
                multicasts(acts@)[0].flags.is_none(),
                mirrored(acts@),
                acts@.len() == 2 + i,
            decreases n - i,
        {
            let p = known[i].duplicate();
            let ghost before = acts@;
            push_action(&mut acts, Action::Notify(Notice::Connection, p));
            assert(multicasts(acts@) =~= multicasts(before));
            assert(unicasts(acts@) =~= unicasts(before));
            i = i + 1;
            assert(notices(acts@, Notice::Connection) =~= known@.subrange(0, i as int));
            assert(notices(acts@, Notice::Disconnection) =~= Seq::<Publisher>::empty());
            assert(notices(acts@, Notice::Registration) =~= Seq::<Publisher>::empty());
            assert(notices(acts@, Notice::Unregistration) =~= Seq::<Publisher>::empty());
            assert(multicasts(acts@) =~= multicasts(acts@));
            assert(unicasts(acts@) =~= unicasts(acts@));
        }
        assert(known@.subrange(0, n as int) =~= known@);
        acts
    }

    /// Announces that this process now receives `publisher`'s messages.
    pub fn register(&self, publisher: &Publisher) -> (r: Vec<Action>)
        ensures
            no_notices(r@),
            mirrored(r@),
            r@.len() == 2,
            multicasts(r@).len() == 1,
            outgoing(multicasts(r@)[0], self.version, self.p_uuid@, Type::NewConnection, *publisher),
    {
        let mut acts: Vec<Action> = Vec::new();
        self.send_all(&mut acts, Type::NewConnection, publisher);
        acts
    }

    /// Announces that this process no longer receives `publisher`'s messages.
    pub fn unregister(&self, publisher: &Publisher) -> (r: Vec<Action>)
        ensures
            no_notices(r@),
            mirrored(r@),
            r@.len() == 2,
            multicasts(r@).len() == 1,
            outgoing(multicasts(r@)[0], self.version, self.p_uuid@, Type::EndConnection, *publisher),
    {
        let mut acts: Vec<Action> = Vec::new();
        self.send_all(&mut acts, Type::EndConnection, publisher);
        acts
    }

    /// Announces that this process leaves.
    pub fn bye(&self) -> (r: Vec<Action>)
        ensures
            no_notices(r@),
            multicasts(r@).len() == 1,
            multicasts(r@)[0].msg_type == Type::Bye,
            multicasts(r@)[0].process_uuid@ == self.p_uuid@,
            multicasts(r@)[0].version == self.version,
            mirrored(r@),
            r@.len() == 2,
    {
        let mut acts: Vec<Action> = Vec::new();
        let p = Publisher::bare("", self.p_uuid.as_str());
        self.send_all(&mut acts, Type::Bye, &p);
        acts
    }

    /// The periodic heartbeat: a `Heartbeat`, then a fresh advertisement of
    /// every record of this process.
    pub fn heartbeat(&self) -> (r: Vec<Action>)
        ensures
            no_notices(r@),
            multicasts(r@).len() == 1 + self.store@.filter(selection(None, Some(self.p_uuid@), None)).len(),
            multicasts(r@)[0].msg_type == Type::Heartbeat,
            multicasts(r@)[0].version == self.version,
            multicasts(r@)[0].process_uuid@ == self.p_uuid@,
            multicasts(r@)[0].disc_contents.is_none(),
            mirrored(r@),
            forall|i: int| 1 <= i < multicasts(r@).len() ==> outgoing(
                #[trigger] multicasts(r@)[i],
                self.version,
                self.p_uuid@,
                Type::Advertise,
                self.store@.filter(selection(None, Some(self.p_uuid@), None))[i - 1],
            ),
    {
        let mut acts: Vec<Action> = Vec::new();
        let p = Publisher::bare("", self.p_uuid.as_str());
        self.send_all(&mut acts, Type::Heartbeat, &p);
        let own = self.store.publishers_by_process(self.p_uuid.as_str());
        let n = own.len();
        let mut i: usize = 0;
        while i < n
            invariant
                n == own@.len(),
                own@ == self.store@.filter(selection(None, Some(self.p_uuid@), None)),
                i <= n,
                no_notices(acts@),
                multicasts(acts@).len() == 1 + i,
                multicasts(acts@)[0].msg_type == Type::Heartbeat,
                multicasts(acts@)[0].version == self.version,
                multicasts(acts@)[0].process_uuid@ == self.p_uuid@,
                multicasts(acts@)[0].disc_contents.is_none(),
                mirrored(acts@),
                forall|j: int| 1 <= j < multicasts(acts@).len() ==> outgoing(
                    #[trigger] multicasts(acts@)[j],
                    self.version,
                    self.p_uuid@,
                    Type::Advertise,
                    own@[j - 1],
                ),
            decreases n - i,
        {
            let ghost before = acts@;
            self.send_all(&mut acts, Type::Advertise, &own[i]);
            proof {
                assert forall|j: int| 1 <= j < multicasts(acts@).len() implies outgoing(
                    #[trigger] multicasts(acts@)[j],
                    self.version,
                    self.p_uuid@,
                    Type::Advertise,
                    own@[j - 1],
                ) by {
                    if j < multicasts(acts@).len() - 1 {
                        assert(multicasts(acts@)[j] == multicasts(acts@).drop_last()[j]);
                    }
                }
                assert(multicasts(acts@)[0] == multicasts(acts@).drop_last()[0]);
            }
            i = i + 1;
        }
        acts
    }
}

/// The records of process `u` in `s` exist.
pub open spec fn has_records(s: Seq<Publisher>, u: Seq<char>) -> bool {
    any_selected(s, None, Some(u), None)
}

/// The activity entries that a sweep at `now` keeps.
pub open spec fn still_active(now: u64, silence: u64) -> spec_fn(Activity) -> bool {
    |a: Activity| !silent(a, now, silence)
}

/// The processes that a sweep at `now` reports as gone, in activity order:
/// silent ones that still have records.
pub open spec fn gone(act: Seq<Activity>, s: Seq<Publisher>, now: u64, silence: u64) -> Seq<Seq<char>>
    decreases act.len(),
{
    if act.len() == 0 {
        Seq::empty()
    } else {
        let rest = gone(act.drop_last(), s, now, silence);
        let a = act.last();
        if silent(a, now, silence) && has_records(s, a.process_uuid@) {
            rest.push(a.process_uuid@)
        } else {
            rest
        }
    }
}

/// The processes named by the records handed to a callback.
pub open spec fn processes_of(ps: Seq<Publisher>) -> Seq<Seq<char>> {
    ps.map_values(|p: Publisher| p.process_uuid@)
}

pub proof fn lemma_records_of_other_process(s: Seq<Publisher>, q: Seq<char>, u: Seq<char>)
    requires
        q != u,
    ensures
        has_records(s.filter(rejection(None, Some(q), None)), u) == has_records(s, u),
{
    let f = rejection(None, Some(q), None);
    let t = s.filter(f);
    if has_records(s, u) {
        let i = choose|i: int| 0 <= i < s.len() && crate::discovery_store::selects(#[trigger] s[i], None, Some(u), None);
        assert(f(s[i]));
        s.lemma_filter_contains(f, i);
        let j = choose|j: int| 0 <= j < t.len() && t[j] == s[i];
        assert(crate::discovery_store::selects(t[j], None, Some(u), None));
    }
    if has_records(t, u) {
        let j = choose|j: int| 0 <= j < t.len() && crate::discovery_store::selects(#[trigger] t[j], None, Some(u), None);
        assert(t.contains(t[j]));
        s.lemma_filter_contains_rev(f, t[j]);
        let i = choose|i: int| 0 <= i < s.len() && s[i] == t[j];
        assert(crate::discovery_store::selects(s[i], None, Some(u), None));
    }
}

fn copy_activity(a: &Activity) -> (r: Activity)
    ensures
        r == *a,
{
    Activity { process_uuid: a.process_uuid.clone(), last_seen: a.last_seen }
}

impl DiscoveryEngine {
    /// Records that process `p` was heard from at `now`.
    fn touch(&mut self, p: &String, now: u64)
        requires
            old(self).wf(),
        ensures
            final(self).wf(),
            final(self).store == old(self).store,
            final(self).p_uuid == old(self).p_uuid,
            final(self).version == old(self).version,
            final(self).host_interfaces == old(self).host_interfaces,
            final(self).silence_interval == old(self).silence_interval,
            exists|i: int| 0 <= i < final(self).activity@.len() && (#[trigger] final(self).activity@[i]).process_uuid@ == p@
                && final(self).activity@[i].last_seen == now,
            forall|i: int| 0 <= i < old(self).activity@.len() && old(self).activity@[i].process_uuid@ != p@
                ==> final(self).activity@.contains(#[trigger] old(self).activity@[i]),
    {
        let n = self.activity.len();
        let mut i: usize = 0;
        while i < n
            invariant
                n == self.activity@.len(),
                i <= n,
                *self == *old(self),
                old(self).wf(),
                forall|j: int| 0 <= j < i ==> (#[trigger] self.activity@[j]).process_uuid@ != p@,
            decreases n - i,
        {
            if self.activity[i].process_uuid == *p {
                let a = Activity { process_uuid: p.clone(), last_seen: now };
                self.activity.set(i, a);
                assert(self.activity@[i as int].process_uuid@ == p@);
                assert forall|j: int, k: int| 0 <= j < k < self.activity@.len() implies (#[trigger] self.activity@[j]).process_uuid@
                    != (#[trigger] self.activity@[k]).process_uuid@ by {
                    assert(old(self).activity@[j].process_uuid@ != old(self).activity@[k].process_uuid@);
                    if j == i {
                        assert(self.activity@[k] == old(self).activity@[k]);
                    } else if k == i {
                        assert(self.activity@[j] == old(self).activity@[j]);
                    } else {
                        assert(self.activity@[j] == old(self).activity@[j]);
                        assert(self.activity@[k] == old(self).activity@[k]);
                    }
                }
                assert forall|j: int| 0 <= j < old(self).activity@.len() && old(self).activity@[j].process_uuid@ != p@
                    implies self.activity@.contains(#[trigger] old(self).activity@[j]) by {
                    assert(j != i);
                    assert(self.activity@[j] == old(self).activity@[j]);
                }
                return;
            }
            i = i + 1;
        }
        self.activity.push(Activity { process_uuid: p.clone(), last_seen: now });
        assert(self.activity@[n as int].process_uuid@ == p@);
        assert forall|j: int, k: int| 0 <= j < k < self.activity@.len() implies (#[trigger] self.activity@[j]).process_uuid@
            != (#[trigger] self.activity@[k]).process_uuid@ by {
            if k < n {
                assert(old(self).activity@[j].process_uuid@ != old(self).activity@[k].process_uuid@);
            } else {
                assert(self.activity@[j] == old(self).activity@[j]);
            }
        }
        assert forall|j: int| 0 <= j < old(self).activity@.len() && old(self).activity@[j].process_uuid@ != p@
            implies self.activity@.contains(#[trigger] old(self).activity@[j]) by {
            assert(self.activity@[j] == old(self).activity@[j]);
        }
    }

    /// Forgets when process `p` was last heard from.
    fn forget(&mut self, p: &String)
        requires
            old(self).wf(),
        ensures
            final(self).wf(),
            final(self).store == old(self).store,
            final(self).p_uuid == old(self).p_uuid,
            final(self).version == old(self).version,
            final(self).host_interfaces == old(self).host_interfaces,
            final(self).silence_interval == old(self).silence_interval,
            forall|i: int| 0 <= i < final(self).activity@.len() ==> (#[trigger] final(self).activity@[i]).process_uuid@ != p@,
            forall|i: int| 0 <= i < old(self).activity@.len() && old(self).activity@[i].process_uuid@ != p@
                ==> final(self).activity@.contains(#[trigger] old(self).activity@[i]),
    {
        let ghost f = |a: Activity| a.process_uuid@ != p@;
        let ghost old_act = self.activity@;
        let n = self.activity.len();
        let mut kept: Vec<Activity> = Vec::new();
        let mut i: usize = 0;
        assert(old_act.subrange(0, 0).filter(f) =~= Seq::<Activity>::empty()) by {
            reveal(Seq::filter);
        }
        while i < n
            invariant
                n == old_act.len(),
                self.activity@ == old_act,
                i <= n,
                f == (|a: Activity| a.process_uuid@ != p@),
                kept@ == old_act.subrange(0, i as int).filter(f),
            decreases n - i,
        {
            proof {
                assert(old_act.subrange(0, i + 1) =~= old_act.subrange(0, i as int).push(old_act[i as int]));
                old_act.subrange(0, i as int).lemma_filter_push(old_act[i as int], f);
            }
            if self.activity[i].process_uuid != *p {
                let a = copy_activity(&self.activity[i]);
                kept.push(a);
            }
            i = i + 1;
        }
        assert(old_act.subrange(0, n as int) =~= old_act);
        proof {
            assert forall|j: int, k: int| 0 <= j < k < kept@.len() implies (#[trigger] kept@[j]).process_uuid@
                != (#[trigger] kept@[k]).process_uuid@ by {
                lemma_filter_keeps_processes_distinct(old_act, f, j, k);
            }
            assert forall|j: int| 0 <= j < kept@.len() implies (#[trigger] kept@[j]).process_uuid@ != p@ by {
                old_act.lemma_filter_pred(f, j);
            }
            assert forall|j: int| 0 <= j < old_act.len() && old_act[j].process_uuid@ != p@
                implies kept@.contains(#[trigger] old_act[j]) by {
                old_act.lemma_filter_contains(f, j);
            }
        }
        self.activity = kept;
    }

    /// The periodic sweep at time `now` (ms): every process silent for longer
    /// than the silence interval is forgotten, its records are dropped, and
    /// each of them that had records is reported to the disconnection
    /// callback.
    pub fn update_activity(&mut self, now: u64) -> (r: Vec<Action>)
        requires
            old(self).wf(),
        ensures
            final(self).wf(),
            final(self).p_uuid == old(self).p_uuid,
            final(self).version == old(self).version,
            final(self).host_interfaces == old(self).host_interfaces,
            final(self).silence_interval == old(self).silence_interval,
            final(self).activity@ == old(self).activity@.filter(still_active(now, old(self).silence_interval)),
            processes_of(notices(r@, Notice::Disconnection)) == gone(old(self).activity@, old(self).store@, now, old(self).silence_interval),
            notices(r@, Notice::Connection) == Seq::<Publisher>::empty(),
            notices(r@, Notice::Registration) == Seq::<Publisher>::empty(),
            notices(r@, Notice::Unregistration) == Seq::<Publisher>::empty(),
            forall|i: int| 0 <= i < old(self).activity@.len() && silent(#[trigger] old(self).activity@[i], now, old(self).silence_interval)
                ==> !has_records(final(self).store@, old(self).activity@[i].process_uuid@),
            forall|u: Seq<char>| (forall|i: int| 0 <= i < old(self).activity@.len() && silent(#[trigger] old(self).activity@[i], now, old(self).silence_interval)
                ==> old(self).activity@[i].process_uuid@ != u) ==> has_records(final(self).store@, u) == has_records(old(self).store@, u),
    {
        let ghost old_act = self.activity@;
        let ghost old_store = self.store@;
        let ghost f = still_active(now, self.silence_interval);
        let n = self.activity.len();
        let mut kept: Vec<Activity> = Vec::new();
        let mut acts: Vec<Action> = Vec::new();
        let mut i: usize = 0;
        assert(old_act.subrange(0, 0).filter(f) =~= Seq::<Activity>::empty()) by {
            reveal(Seq::filter);
        }
        assert(old_act.subrange(0, 0) =~= Seq::<Activity>::empty());
        assert(processes_of(notices(acts@, Notice::Disconnection)) =~= Seq::<Seq<char>>::empty());
        while i < n
            invariant
                n == old_act.len(),
                i <= n,
                self.activity@ == old_act,
                self.store.wf(),
                self.p_uuid == old(self).p_uuid,
                self.version == old(self).version,
                self.host_interfaces == old(self).host_interfaces,
                self.silence_interval == old(self).silence_interval,
                f == still_active(now, self.silence_interval),
                forall|j: int, k: int| 0 <= j < k < old_act.len() ==> (#[trigger] old_act[j]).process_uuid@
                    != (#[trigger] old_act[k]).process_uuid@,
                kept@ == old_act.subrange(0, i as int).filter(f),
                processes_of(notices(acts@, Notice::Disconnection)) == gone(old_act.subrange(0, i as int), old_store, now, self.silence_interval),
                notices(acts@, Notice::Connection) == Seq::<Publisher>::empty(),
                notices(acts@, Notice::Registration) == Seq::<Publisher>::empty(),
                notices(acts@, Notice::Unregistration) == Seq::<Publisher>::empty(),
                forall|j: int| 0 <= j < i && silent(#[trigger] old_act[j], now, self.silence_interval)
                    ==> !has_records(self.store@, old_act[j].process_uuid@),
                forall|u: Seq<char>| (forall|j: int| 0 <= j < i && silent(#[trigger] old_act[j], now, self.silence_interval)
                    ==> old_act[j].process_uuid@ != u) ==> has_records(self.store@, u) == has_records(old_store, u),
            decreases n - i,
        {
            let proc = self.activity[i].process_uuid.clone();
            let last = self.activity[i].last_seen;
            let ghost prev = self.store@;
            let ghost a = old_act[i as int];
            proof {
                assert(old_act.subrange(0, i + 1).drop_last() =~= old_act.subrange(0, i as int));
                assert(old_act.subrange(0, i + 1) =~= old_act.subrange(0, i as int).push(a));
                old_act.subrange(0, i as int).lemma_filter_push(a, f);
                assert forall|j: int| 0 <= j < i && silent(#[trigger] old_act[j], now, self.silence_interval)
                    implies old_act[j].process_uuid@ != proc@ by {}
                assert(has_records(prev, proc@) == has_records(old_store, proc@));
            }
            if now > last && now - last > self.silence_interval {
                let res = self.store.del_publishers_by_process(proc.as_str());
                if res.is_ok() {
                    let ghost before = acts@;
                    let b = Publisher::bare("", proc.as_str());
                    push_action(&mut acts, Action::Notify(Notice::Disconnection, b));
                    proof {
                        assert(notices(acts@, Notice::Disconnection) == notices(before, Notice::Disconnection).push(b));
                        assert(processes_of(notices(acts@, Notice::Disconnection)) =~= processes_of(notices(before, Notice::Disconnection)).push(proc@));
                        assert(notices(acts@, Notice::Connection) =~= Seq::<Publisher>::empty());
                        assert(notices(acts@, Notice::Registration) =~= Seq::<Publisher>::empty());
                        assert(notices(acts@, Notice::Unregistration) =~= Seq::<Publisher>::empty());
                    }
                }
                proof {
                    lemma_no_records_after_removal(prev, proc@);
                    assert forall|u: Seq<char>| u != proc@ implies has_records(self.store@, u) == has_records(prev, u) by {
                        if res.is_ok() {
                            lemma_records_of_other_process(prev, proc@, u);
                        }
                    }
                    assert forall|j: int| 0 <= j < i + 1 && silent(#[trigger] old_act[j], now, self.silence_interval)
                        implies !has_records(self.store@, old_act[j].process_uuid@) by {
                        if j < i {
                            assert(old_act[j].process_uuid@ != proc@);
                        }
                    }
                }
            } else {
                let c = copy_activity(&self.activity[i]);
                kept.push(c);
            }
            i = i + 1;
        }
        assert(old_act.subrange(0, n as int) =~= old_act);
        proof {
            assert forall|j: int, k: int| 0 <= j < k < kept@.len() implies (#[trigger] kept@[j]).process_uuid@
                != (#[trigger] kept@[k]).process_uuid@ by {
                lemma_filter_keeps_processes_distinct(old_act, f, j, k);
            }
        }
        self.activity = kept;
        acts
    }
}

pub proof fn lemma_no_records_after_removal(s: Seq<Publisher>, q: Seq<char>)
    ensures
        !has_records(s.filter(rejection(None, Some(q), None)), q),
{
    let f = rejection(None, Some(q), None);
    let t = s.filter(f);
    if has_records(t, q) {
        let j = choose|j: int| 0 <= j < t.len() && crate::discovery_store::selects(#[trigger] t[j], None, Some(q), None);
        s.lemma_filter_pred(f, j);
    }
}

proof fn lemma_filter_keeps_processes_distinct(s: Seq<Activity>, f: spec_fn(Activity) -> bool, j: int, k: int)
    requires
        forall|a: int, b: int| 0 <= a < b < s.len() ==> (#[trigger] s[a]).process_uuid@ != (#[trigger] s[b]).process_uuid@,
        0 <= j < k < s.filter(f).len(),
    ensures
        s.filter(f)[j].process_uuid@ != s.filter(f)[k].process_uuid@,
    decreases s.len(),
{
    reveal(Seq::filter);
    let t = s.drop_last();
    assert forall|a: int, b: int| 0 <= a < b < t.len() implies (#[trigger] t[a]).process_uuid@ != (#[trigger] t[b]).process_uuid@ by {
        assert(t[a] == s[a] && t[b] == s[b]);
    }
    let ft = t.filter(f);
    if f(s.last()) && k == s.filter(f).len() - 1 {
        assert(s.filter(f)[j] == ft[j]);
        assert(ft.contains(ft[j]));
        t.lemma_filter_contains_rev(f, ft[j]);
        let m = choose|m: int| 0 <= m < t.len() && t[m] == ft[j];
        assert(s[m] == t[m]);
    } else if f(s.last()) {
        assert(s.filter(f)[j] == ft[j] && s.filter(f)[k] == ft[k]);
        lemma_filter_keeps_processes_distinct(t, f, j, k);
    } else {
        lemma_filter_keeps_processes_distinct(t, f, j, k);
    }
}

/// Records admitted for a sender that is or is not on this host.
pub open spec fn admitted(sender_local: bool) -> spec_fn(Publisher) -> bool {
    |p: Publisher| admits(p.scope, sender_local)
}

/// The records of process `own` on `topic` that a probe from a sender that
/// is or is not on this host is answered with.
pub open spec fn answers(s: Seq<Publisher>, own: Seq<char>, topic: Seq<char>, sender_local: bool) -> Seq<Publisher> {
    s.filter(selection(Some(topic), Some(own), None)).filter(admitted(sender_local))
}

/// The engine takes up a message of its own version from another process.
pub open spec fn accepted(e: DiscoveryEngine, msg: Discovery) -> bool {
    msg.version == e.version && msg.process_uuid@ != e.p_uuid@
}

/// The engine handles the message itself rather than only bouncing it back
/// to the group.
pub open spec fn proceeds(e: DiscoveryEngine, msg: Discovery) -> bool {
    accepted(e, msg) && relay_spec(msg.flags) != RelayDecision::ToMulticast
}

/// The publisher record that a message carries, if any.
pub open spec fn carried(msg: Discovery) -> Option<Publisher> {
    match msg.disc_contents {
        Some(DiscContents::Pub(p)) => Some(p),
        _ => None,
    }
}

pub open spec fn key_taken(s: Seq<Publisher>, p: Publisher) -> bool {
    exists|i: int| 0 <= i < s.len() && crate::discovery_store::same_key(#[trigger] s[i], p)
}

/// The store once the records that match `p`'s topic, process and node are
/// gone (unchanged when there are none).
pub open spec fn without_key(s: Seq<Publisher>, p: Publisher) -> Seq<Publisher> {
    if any_selected(s, Some(p.topic@), Some(p.process_uuid@), Some(p.node_uuid@)) {
        s.filter(rejection(Some(p.topic@), Some(p.process_uuid@), Some(p.node_uuid@)))
    } else {
        s
    }
}

/// The store once process `u`'s records are gone.
pub open spec fn without_process(s: Seq<Publisher>, u: Seq<char>) -> Seq<Publisher> {
    if has_records(s, u) {
        s.filter(rejection(None, Some(u), None))
    } else {
        s
    }
}

impl DiscoveryEngine {
    /// Handles a discovery message received at `now` (ms) from the IPv4
    /// address `from_ip`.
    pub fn handle_message(&mut self, msg: Discovery, from_ip: u32, now: u64) -> (r: Vec<Action>)
        requires
            old(self).wf(),
        ensures
            final(self).wf(),
            final(self).p_uuid == old(self).p_uuid,
            final(self).version == old(self).version,
            final(self).host_interfaces == old(self).host_interfaces,
            final(self).silence_interval == old(self).silence_interval,
            !accepted(*old(self), msg) ==> final(self).store@ == old(self).store@ && final(self).activity@
                == old(self).activity@ && r@.len() == 0,
            accepted(*old(self), msg) && !proceeds(*old(self), msg) ==> {
                &&& final(self).store@ == old(self).store@
                &&& final(self).activity@ == old(self).activity@
                &&& r@.len() == 2
                &&& r@[0] matches Action::Multicast(m) && m.flags == Some(Flags { relay: false, no_relay: true })
                    && m.disc_contents == msg.disc_contents && m.msg_type == msg.msg_type
                &&& r@[1] matches Action::RememberSender
            },
            proceeds(*old(self), msg) && msg.msg_type != Type::Bye ==> exists|i: int|
                0 <= i < final(self).activity@.len() && (#[trigger] final(self).activity@[i]).process_uuid@
                    == msg.process_uuid@ && final(self).activity@[i].last_seen == now,
            proceeds(*old(self), msg) && msg.msg_type == Type::Advertise ==> match carried(msg) {
                Some(p) => if admits(p.scope, local_ip(old(self).host_interfaces@, from_ip)) && !key_taken(old(self).store@, p) {
                    final(self).store@ == old(self).store@.push(p) && notices(r@, Notice::Connection) == seq![p]
                } else {
                    final(self).store@ == old(self).store@ && no_notices(r@)
                },
                None => final(self).store@ == old(self).store@ && no_notices(r@),
            },
            proceeds(*old(self), msg) && msg.msg_type == Type::Unadvertise ==> match carried(msg) {
                Some(p) => if admits(p.scope, local_ip(old(self).host_interfaces@, from_ip)) {
                    final(self).store@ == without_key(old(self).store@, p) && notices(r@, Notice::Disconnection) == seq![p]
                        && notices(r@, Notice::Connection).len() == 0
                } else {
                    final(self).store@ == old(self).store@ && no_notices(r@)
                },
                None => final(self).store@ == old(self).store@ && no_notices(r@),
            },
            proceeds(*old(self), msg) && msg.msg_type == Type::Bye ==> {
                &&& final(self).store@ == without_process(old(self).store@, msg.process_uuid@)
                &&& processes_of(notices(r@, Notice::Disconnection)) == seq![msg.process_uuid@]
                &&& notices(r@, Notice::Connection).len() == 0
                &&& forall|i: int| 0 <= i < final(self).activity@.len() ==> (#[trigger] final(self).activity@[i]).process_uuid@
                    != msg.process_uuid@
            },
            proceeds(*old(self), msg) && msg.msg_type == Type::NewConnection && carried(msg) is Some ==> {
                &&& final(self).store@ == old(self).store@
                &&& notices(r@, Notice::Registration) == seq![carried(msg)->0]
                &&& notices(r@, Notice::Connection).len() == 0
            },
            proceeds(*old(self), msg) && msg.msg_type == Type::EndConnection && carried(msg) is Some ==> {
                &&& final(self).store@ == old(self).store@
                &&& notices(r@, Notice::Unregistration) == seq![carried(msg)->0]
                &&& notices(r@, Notice::Connection).len() == 0
            },
            proceeds(*old(self), msg) && (msg.msg_type == Type::Subscribe || msg.msg_type == Type::Heartbeat
                || msg.msg_type == Type::Uninitialized) ==> final(self).store@ == old(self).store@ && no_notices(r@),
            forall|i: int| 0 <= i < old(self).activity@.len() && old(self).activity@[i].process_uuid@ != msg.process_uuid@
                ==> final(self).activity@.contains(#[trigger] old(self).activity@[i]),
            proceeds(*old(self), msg) && msg.msg_type == Type::Advertise ==> match carried(msg) {
                Some(p) => admits(p.scope, local_ip(old(self).host_interfaces@, from_ip)) ==> key_taken(final(self).store@, p),
                None => true,
            },
            proceeds(*old(self), msg) && msg.msg_type == Type::Unadvertise ==> match carried(msg) {
                Some(p) => admits(p.scope, local_ip(old(self).host_interfaces@, from_ip)) ==> !any_selected(
                    final(self).store@,
                    Some(p.topic@),
                    Some(p.process_uuid@),
                    Some(p.node_uuid@),
                ),
                None => true,
            },
            proceeds(*old(self), msg) && msg.msg_type == Type::Bye ==> !has_records(final(self).store@, msg.process_uuid@),
            proceeds(*old(self), msg) && (msg.msg_type == Type::NewConnection || msg.msg_type == Type::EndConnection)
                && carried(msg) is None ==> final(self).store@ == old(self).store@ && no_notices(r@),
            accepted(*old(self), msg) && relay_spec(msg.flags) == RelayDecision::ToUnicast ==> {
                &&& r@.len() > 0
                &&& r@[0] matches Action::Unicast(u) && flagged_copy(u, msg, relay_flags())
                &&& mirrored_from(r@, 1)
            },
            accepted(*old(self), msg) && relay_spec(msg.flags) == RelayDecision::Handle ==> mirrored(r@),
            proceeds(*old(self), msg) && msg.msg_type == Type::Subscribe ==> match msg.disc_contents {
                Some(DiscContents::Sub(sub)) => {
                    let a = answers(old(self).store@, old(self).p_uuid@, sub.topic@, local_ip(old(self).host_interfaces@, from_ip));
                    &&& multicasts(r@).len() == a.len()
                    &&& forall|i: int| 0 <= i < a.len() ==> outgoing(#[trigger] multicasts(r@)[i], old(self).version, old(self).p_uuid@, Type::Advertise, a[i])
                },
                _ => multicasts(r@).len() == 0,
            },
    {
        let mut acts: Vec<Action> = Vec::new();
        if msg.version != self.version || msg.process_uuid == self.p_uuid {
            return acts;
        }
        let d = relay_decision(msg.flags);
        if d == RelayDecision::ToMulticast {
            let m = with_flags(&msg, Flags { relay: false, no_relay: true });
            acts.push(Action::Multicast(m));
            acts.push(Action::RememberSender);
            return acts;
        }
        let ghost fwd: int = if d == RelayDecision::ToUnicast { 1 } else { 0 };
        if d == RelayDecision::ToUnicast {
            let u = with_flags(&msg, Flags { relay: true, no_relay: false });
            push_action(&mut acts, Action::Unicast(u));
        }
        let ghost head = if acts@.len() > 0 { acts@[0] } else { Action::RememberSender };
        proof {
            assert(mirrored_from(acts@, fwd));
            assert forall|k: Notice| #[trigger] notices(acts@, k) == Seq::<Publisher>::empty() by {
                if acts@.len() > 0 {
                    assert(acts@.drop_last() =~= Seq::<Action>::empty());
                }
            }
        }
        let local = is_local_ip(&self.host_interfaces, from_ip);
        let carried_pub = match &msg.disc_contents {
            Some(DiscContents::Pub(p)) => Some(p.duplicate()),
            _ => None,
        };
        match msg.msg_type {
            Type::Advertise => {
                self.touch(&msg.process_uuid, now);
                if let Some(p) = carried_pub {
                    if scope_admits(p.scope, local) {
                        let q = p.duplicate();
                        let ghost before = self.store@;
                        if self.store.add_publisher(q).is_ok() {
                            proof {
                                lemma_readvertisement_is_silent(before, p);
                            }
                            push_action(&mut acts, Action::Notify(Notice::Connection, p));
                        }
                    }
                }
            },
            Type::Unadvertise => {
                self.touch(&msg.process_uuid, now);
                if let Some(p) = carried_pub {
                    if scope_admits(p.scope, local) {
                        let _ = self.store.del_publisher_by_node(
                            p.topic.as_str(),
                            p.process_uuid.as_str(),
                            p.node_uuid.as_str(),
                        );
                        proof {
                            lemma_unadvertise_then_discover(old(self).store@, p);
                        }
                        push_action(&mut acts, Action::Notify(Notice::Disconnection, p));
                    }
                }
            },
            Type::Bye => {
                self.forget(&msg.process_uuid);
                let b = Publisher::bare("", msg.process_uuid.as_str());
                push_action(&mut acts, Action::Notify(Notice::Disconnection, b));
                proof {
                    assert(processes_of(notices(acts@, Notice::Disconnection)) =~= seq![msg.process_uuid@]);
                }
                let _ = self.store.del_publishers_by_process(msg.process_uuid.as_str());
                proof {
                    lemma_bye_then_discover(old(self).store@, msg.process_uuid@, Seq::empty());
                }
            },
            Type::NewConnection => {
                self.touch(&msg.process_uuid, now);
                if let Some(p) = carried_pub {
                    push_action(&mut acts, Action::Notify(Notice::Registration, p));
                }
            },
            Type::EndConnection => {
                self.touch(&msg.process_uuid, now);
                if let Some(p) = carried_pub {
                    push_action(&mut acts, Action::Notify(Notice::Unregistration, p));
                }
            },
            Type::Subscribe => {
                self.touch(&msg.process_uuid, now);
                assert(multicasts(acts@) =~= Seq::<Discovery>::empty()) by {
                    if acts@.len() > 0 {
                        assert(acts@.drop_last() =~= Seq::<Action>::empty());
                    }
                }
                if let Some(DiscContents::Sub(sub)) = &msg.disc_contents {
                    let own = self.store.publishers(Some(sub.topic.as_str()), Some(self.p_uuid.as_str()), None);
                    let ghost f = admitted(local);
                    let n = own.len();
                    let mut i: usize = 0;
                    assert(own@.subrange(0, 0).filter(f) =~= Seq::<Publisher>::empty()) by {
                        reveal(Seq::filter);
                    }
                    while i < n
                        invariant
                            n == own@.len(),
                            i <= n,
                            no_notices(acts@),
                            mirrored_from(acts@, fwd),
                            0 <= fwd <= 1,
                            fwd == 1 ==> acts@.len() > 0 && acts@[0] == head,
                            f == admitted(local),
                            multicasts(acts@).len() == own@.subrange(0, i as int).filter(f).len(),
                            forall|j: int| 0 <= j < multicasts(acts@).len() ==> outgoing(
                                #[trigger] multicasts(acts@)[j],
                                self.version,
                                self.p_uuid@,
                                Type::Advertise,
                                own@.subrange(0, i as int).filter(f)[j],
                            ),
                        decreases n - i,
                    {
                        proof {
                            assert(own@.subrange(0, i + 1) =~= own@.subrange(0, i as int).push(own@[i as int]));
                            own@.subrange(0, i as int).lemma_filter_push(own@[i as int], f);
                        }
                        let ghost prev = own@.subrange(0, i as int).filter(f);
                        if scope_admits(own[i].scope, local) {
                            self.send_all(&mut acts, Type::Advertise, &own[i]);
                            proof {
                                assert forall|j: int| 0 <= j < multicasts(acts@).len() implies outgoing(
                                    #[trigger] multicasts(acts@)[j],
                                    self.version,
                                    self.p_uuid@,
                                    Type::Advertise,
                                    own@.subrange(0, i + 1).filter(f)[j],
                                ) by {
                                    if j < multicasts(acts@).len() - 1 {
                                        assert(multicasts(acts@)[j] == multicasts(acts@).drop_last()[j]);
                                        assert(own@.subrange(0, i + 1).filter(f)[j] == prev[j]);
                                    }
                                }
                            }
                        }
                        i = i + 1;
                    }
                    assert(own@.subrange(0, n as int) =~= own@);
                }
            },
            _ => {
                self.touch(&msg.process_uuid, now);
            },
        }
        acts
    }
}

proof fn lemma_filter_none(s: Seq<Publisher>, f: spec_fn(Publisher) -> bool)
    requires
        forall|i: int| 0 <= i < s.len() ==> !f(#[trigger] s[i]),
    ensures
        s.filter(f) == Seq::<Publisher>::empty(),
    decreases s.len(),
{
    reveal(Seq::filter);
    if s.len() > 0 {
        let t = s.drop_last();
        assert forall|i: int| 0 <= i < t.len() implies !f(#[trigger] t[i]) by {
            assert(t[i] == s[i]);
        }
        lemma_filter_none(t, f);
        assert(!f(s[s.len() - 1]));
    }
}

/// A peer that knew no record of a topic and takes in one advertisement of
/// it stores that record, and a discovery of the topic then reports exactly
/// that record, type name included.
pub proof fn lemma_advertise_then_discover(s: Seq<Publisher>, p: Publisher)
    requires
        !any_selected(s, Some(p.topic@), None, None),
    ensures
        !key_taken(s, p),
        s.push(p).filter(selection(Some(p.topic@), None, None)) == seq![p],
{
    let f = selection(Some(p.topic@), None, None);
    assert forall|i: int| 0 <= i < s.len() implies !f(#[trigger] s[i]) by {
        assert(!crate::discovery_store::selects(s[i], Some(p.topic@), None, None));
    }
    lemma_filter_none(s, f);
    s.lemma_filter_push(p, f);
    assert(s.push(p).filter(f) =~= seq![p]);
    if key_taken(s, p) {
        let i = choose|i: int| 0 <= i < s.len() && crate::discovery_store::same_key(#[trigger] s[i], p);
        assert(crate::discovery_store::selects(s[i], Some(p.topic@), None, None));
    }
}

/// Two processes advertising the same topic to a peer that knew no record of
/// it are both stored, and a discovery of the topic then reports each of the
/// two records once: the connection callback fires twice.
pub proof fn lemma_two_advertisers(s: Seq<Publisher>, p1: Publisher, p2: Publisher)
    requires
        !any_selected(s, Some(p1.topic@), None, None),
        p2.topic@ == p1.topic@,
        p1.process_uuid@ != p2.process_uuid@,
    ensures
        !key_taken(s, p1),
        !key_taken(s.push(p1), p2),
        s.push(p1).push(p2).filter(selection(Some(p1.topic@), None, None)) == seq![p1, p2],
{
    lemma_advertise_then_discover(s, p1);
    let f = selection(Some(p1.topic@), None, None);
    let s1 = s.push(p1);
    s1.lemma_filter_push(p2, f);
    assert(s1.push(p2).filter(f) =~= seq![p1, p2]);
    if key_taken(s1, p2) {
        let i = choose|i: int| 0 <= i < s1.len() && crate::discovery_store::same_key(#[trigger] s1[i], p2);
        if i < s.len() {
            assert(s1[i] == s[i]);
            assert(crate::discovery_store::selects(s[i], Some(p1.topic@), None, None));
        }
    }
}

/// After an unadvertisement of `p`, a discovery of its topic reports no
/// record of `p`'s process and node.
pub proof fn lemma_unadvertise_then_discover(s: Seq<Publisher>, p: Publisher)
    ensures
        forall|i: int| 0 <= i < without_key(s, p).filter(selection(Some(p.topic@), None, None)).len()
            ==> !crate::discovery_store::same_key(
                #[trigger] without_key(s, p).filter(selection(Some(p.topic@), None, None))[i],
                p,
            ),
        !any_selected(without_key(s, p), Some(p.topic@), Some(p.process_uuid@), Some(p.node_uuid@)),
{
    let t = without_key(s, p);
    let g = rejection(Some(p.topic@), Some(p.process_uuid@), Some(p.node_uuid@));
    if any_selected(t, Some(p.topic@), Some(p.process_uuid@), Some(p.node_uuid@)) {
        let i = choose|i: int| 0 <= i < t.len() && crate::discovery_store::selects(#[trigger] t[i], Some(p.topic@), Some(p.process_uuid@), Some(p.node_uuid@));
        if any_selected(s, Some(p.topic@), Some(p.process_uuid@), Some(p.node_uuid@)) {
            s.lemma_filter_pred(g, i);
        }
    }
    let f = selection(Some(p.topic@), None, None);
    assert forall|i: int| 0 <= i < t.filter(f).len() implies !crate::discovery_store::same_key(#[trigger] t.filter(f)[i], p) by {
        let q = t.filter(f)[i];
        assert(t.filter(f).contains(q));
        t.lemma_filter_contains_rev(f, q);
        let j = choose|j: int| 0 <= j < t.len() && t[j] == q;
        if crate::discovery_store::same_key(q, p) {
            assert(crate::discovery_store::selects(t[j], Some(p.topic@), Some(p.process_uuid@), Some(p.node_uuid@)));
        }
    }
}

/// After a goodbye of process `u`, no record of `u` is left, so a discovery
/// reports none.
pub proof fn lemma_bye_then_discover(s: Seq<Publisher>, u: Seq<char>, topic: Seq<char>)
    ensures
        !has_records(without_process(s, u), u),
        forall|i: int| 0 <= i < without_process(s, u).filter(selection(Some(topic), None, None)).len()
            ==> (#[trigger] without_process(s, u).filter(selection(Some(topic), None, None))[i]).process_uuid@ != u,
{
    let t = without_process(s, u);
    if has_records(s, u) {
        lemma_no_records_after_removal(s, u);
    }
    let f = selection(Some(topic), None, None);
    assert forall|i: int| 0 <= i < t.filter(f).len() implies (#[trigger] t.filter(f)[i]).process_uuid@ != u by {
        let q = t.filter(f)[i];
        assert(t.filter(f).contains(q));
        t.lemma_filter_contains_rev(f, q);
        let j = choose|j: int| 0 <= j < t.len() && t[j] == q;
        if q.process_uuid@ == u {
            assert(crate::discovery_store::selects(t[j], None, Some(u), None));
        }
    }
}

proof fn lemma_gone_from_activity(act: Seq<Activity>, s: Seq<Publisher>, now: u64, silence: u64, x: Seq<char>)
    requires
        gone(act, s, now, silence).contains(x),
    ensures
        exists|j: int| 0 <= j < act.len() && (#[trigger] act[j]).process_uuid@ == x && silent(act[j], now, silence),
    decreases act.len(),
{
    let t = act.drop_last();
    let rest = gone(t, s, now, silence);
    let k = choose|k: int| 0 <= k < gone(act, s, now, silence).len() && gone(act, s, now, silence)[k] == x;
    if k < rest.len() {
        assert(gone(act, s, now, silence)[k] == rest[k]);
        assert(rest.contains(x));
        lemma_gone_from_activity(t, s, now, silence, x);
        let j = choose|j: int| 0 <= j < t.len() && (#[trigger] t[j]).process_uuid@ == x && silent(t[j], now, silence);
        assert(act[j] == t[j]);
    } else {
        assert(act[act.len() - 1].process_uuid@ == x);
    }
}

proof fn lemma_gone_distinct(act: Seq<Activity>, s: Seq<Publisher>, now: u64, silence: u64)
    requires
        forall|a: int, b: int| 0 <= a < b < act.len() ==> (#[trigger] act[a]).process_uuid@ != (#[trigger] act[b]).process_uuid@,
    ensures
        gone(act, s, now, silence).no_duplicates(),
    decreases act.len(),
{
    if act.len() > 0 {
        let t = act.drop_last();
        assert forall|a: int, b: int| 0 <= a < b < t.len() implies (#[trigger] t[a]).process_uuid@ != (#[trigger] t[b]).process_uuid@ by {
            assert(t[a] == act[a] && t[b] == act[b]);
        }
        lemma_gone_distinct(t, s, now, silence);
        let rest = gone(t, s, now, silence);
        let a = act.last();
        if silent(a, now, silence) && has_records(s, a.process_uuid@) {
            if rest.contains(a.process_uuid@) {
                lemma_gone_from_activity(t, s, now, silence, a.process_uuid@);
                let j = choose|j: int| 0 <= j < t.len() && (#[trigger] t[j]).process_uuid@ == a.process_uuid@ && silent(t[j], now, silence);
                assert(act[j] == t[j]);
            }
            let g = rest.push(a.process_uuid@);
            assert forall|i: int, j: int| 0 <= i < g.len() && 0 <= j < g.len() && i != j implies g[i] != g[j] by {
                if i < rest.len() && j < rest.len() {
                } else if i < rest.len() {
                    assert(rest.contains(g[i]));
                } else {
                    assert(rest.contains(g[j]));
                }
            }
        }
    }
}

/// A process that falls silent for longer than the silence interval while it
/// still has records is reported to the disconnection callback by the next
/// sweep exactly once, and no longer has an activity entry afterwards.
pub proof fn lemma_silent_process_reported_once(
    act: Seq<Activity>,
    s: Seq<Publisher>,
    now: u64,
    silence: u64,
    i: int,
)
    requires
        forall|a: int, b: int| 0 <= a < b < act.len() ==> (#[trigger] act[a]).process_uuid@ != (#[trigger] act[b]).process_uuid@,
        0 <= i < act.len(),
        silent(act[i], now, silence),
        has_records(s, act[i].process_uuid@),
    ensures
        gone(act, s, now, silence).contains(act[i].process_uuid@),
        gone(act, s, now, silence).no_duplicates(),
        !act.filter(still_active(now, silence)).contains(act[i]),
    decreases act.len(),
{
    lemma_gone_distinct(act, s, now, silence);
    let t = act.drop_last();
    if i < act.len() - 1 {
        assert forall|a: int, b: int| 0 <= a < b < t.len() implies (#[trigger] t[a]).process_uuid@ != (#[trigger] t[b]).process_uuid@ by {
            assert(t[a] == act[a] && t[b] == act[b]);
        }
        assert(t[i] == act[i]);
        lemma_silent_process_reported_once(t, s, now, silence, i);
        let rest = gone(t, s, now, silence);
        let k = choose|k: int| 0 <= k < rest.len() && rest[k] == act[i].process_uuid@;
        let a = act.last();
        if silent(a, now, silence) && has_records(s, a.process_uuid@) {
            assert(gone(act, s, now, silence)[k] == rest[k]);
        }
    } else {
        assert(gone(act, s, now, silence).last() == act[i].process_uuid@);
    }
    let f = still_active(now, silence);
    if act.filter(f).contains(act[i]) {
        let k = choose|k: int| 0 <= k < act.filter(f).len() && act.filter(f)[k] == act[i];
        act.lemma_filter_pred(f, k);
    }
}

/// A message that engine `(version, sender)` sends about `p` with `advertise`,
/// `unadvertise`, `register` or `unregister` is handled in full by any other
/// engine of the same version (when it arrives as sent, or as re-broadcast to
/// the group by a relaying peer), and it carries `p` unchanged: together with the contract of
/// `handle_message`, a peer that hears an advertisement of `p` stores `p` and
/// fires its connection callback with `p` once, unless it already holds a
/// record with `p`'s topic, process and node.
pub proof fn lemma_sent_record_arrives(e: DiscoveryEngine, m: Discovery, sender: Seq<char>, t: Type, p: Publisher)
    requires
        t == Type::Advertise || t == Type::Unadvertise || t == Type::NewConnection || t == Type::EndConnection,
        outgoing(m, e.version, sender, t, p) || exists|m0: Discovery|
            outgoing(m0, e.version, sender, t, p) && #[trigger] flagged_copy(m, m0, Flags { relay: false, no_relay: true }),
        sender != e.p_uuid@,
    ensures
        accepted(e, m),
        relay_spec(m.flags) != RelayDecision::ToMulticast,
        proceeds(e, m),
        m.msg_type == t,
        carried(m) == Some(p),
{
}

/// Once a peer holds `p`, a repeated advertisement of it (a heartbeat
/// re-advertisement) finds its key taken, so it fires no callback again.
pub proof fn lemma_readvertisement_is_silent(s: Seq<Publisher>, p: Publisher)
    ensures
        key_taken(s.push(p), p),
{
    assert(crate::discovery_store::same_key(s.push(p)[s.len() as int], p));
}

/// After a sweep has reported a silent process, no later sweep reports it
/// again (until it is heard from anew): its activity entry is gone.
pub proof fn lemma_swept_process_stays_gone(
    act: Seq<Activity>,
    now: u64,
    silence: u64,
    i: int,
    s2: Seq<Publisher>,
    now2: u64,
)
    requires
        forall|a: int, b: int| 0 <= a < b < act.len() ==> (#[trigger] act[a]).process_uuid@ != (#[trigger] act[b]).process_uuid@,
        0 <= i < act.len(),
        silent(act[i], now, silence),
    ensures
        !gone(act.filter(still_active(now, silence)), s2, now2, silence).contains(act[i].process_uuid@),
{
    let f = still_active(now, silence);
    let kept = act.filter(f);
    let q = act[i].process_uuid@;
    if gone(kept, s2, now2, silence).contains(q) {
        lemma_gone_from_activity(kept, s2, now2, silence, q);
        let j = choose|j: int| 0 <= j < kept.len() && (#[trigger] kept[j]).process_uuid@ == q && silent(kept[j], now2, silence);
        act.lemma_filter_pred(f, j);
        assert(kept.contains(kept[j]));
        act.lemma_filter_contains_rev(f, kept[j]);
        let k = choose|k: int| 0 <= k < act.len() && act[k] == kept[j];
        if k < i {
            assert(act[k].process_uuid@ != act[i].process_uuid@);
        } else if i < k {
            assert(act[i].process_uuid@ != act[k].process_uuid@);
        }
    }
}
} // verus!
