//! The records that the discovery protocol carries.
use vstd::prelude::*;
use vstd::string::StringExecFns;

use crate::text::str_eq;

verus! {

/// Visibility of a publisher.
#[derive(Debug, Clone, Copy, PartialEq, Eq, Structural)]
pub enum Scope {
    /// Only subscribers in the publisher's own process.
    Process,
    /// Only subscribers on the publisher's own host.
    Host,
    /// Any subscriber.
    All,
}

pub open spec fn scope_name(s: Scope) -> Seq<char> {
    match s {
        Scope::Process => "PROCESS"@,
        Scope::Host => "HOST"@,
        Scope::All => "ALL"@,
    }
}

pub open spec fn scope_from_name(v: Seq<char>) -> Option<Scope> {
    if v == "PROCESS"@ {
        Some(Scope::Process)
    } else if v == "HOST"@ {
        Some(Scope::Host)
    } else if v == "ALL"@ {
        Some(Scope::All)
    } else {
        None
    }
}

impl Scope {
    /// The name of the variant in the message schema.
    pub fn as_str_name(&self) -> (r: &'static str)
        ensures
            r@ == scope_name(*self),
    {
        match self {
            Scope::Process => "PROCESS",
            Scope::Host => "HOST",
            Scope::All => "ALL",
        }
    }

    /// The variant with the given schema name.
    pub fn from_str_name(value: &str) -> (r: Option<Self>)
        ensures
            r == scope_from_name(value@),
    {
        if str_eq(value, "PROCESS") {
            Some(Scope::Process)
        } else if str_eq(value, "HOST") {
            Some(Scope::Host)
        } else if str_eq(value, "ALL") {
            Some(Scope::All)
        } else {
            None
        }
    }
}

/// Kind of a discovery message.
#[derive(Debug, Clone, Copy, PartialEq, Eq, Structural)]
pub enum Type {
    Uninitialized,
    Advertise,
    Subscribe,
    Unadvertise,
    Heartbeat,
    Bye,
    NewConnection,
    EndConnection,
}

pub open spec fn kind_name(t: Type) -> Seq<char> {
    match t {
        Type::Uninitialized => "UNINITIALIZED"@,
        Type::Advertise => "ADVERTISE"@,
        Type::Subscribe => "SUBSCRIBE"@,
        Type::Unadvertise => "UNADVERTISE"@,
        Type::Heartbeat => "HEARTBEAT"@,
        Type::Bye => "BYE"@,
        Type::NewConnection => "NEW_CONNECTION"@,
        Type::EndConnection => "END_CONNECTION"@,
    }
}

pub open spec fn kind_from_name(v: Seq<char>) -> Option<Type> {
    if v == "UNINITIALIZED"@ {
        Some(Type::Uninitialized)
    } else if v == "ADVERTISE"@ {
        Some(Type::Advertise)
    } else if v == "SUBSCRIBE"@ {
        Some(Type::Subscribe)
    } else if v == "UNADVERTISE"@ {
        Some(Type::Unadvertise)
    } else if v == "HEARTBEAT"@ {
        Some(Type::Heartbeat)
    } else if v == "BYE"@ {
        Some(Type::Bye)
    } else if v == "NEW_CONNECTION"@ {
        Some(Type::NewConnection)
    } else if v == "END_CONNECTION"@ {
        Some(Type::EndConnection)
    } else {
        None
    }
}

impl Type {
    /// The name of the variant in the message schema.
    pub fn as_str_name(&self) -> (r: &'static str)
        ensures
            r@ == kind_name(*self),
    {
        match self {
            Type::Uninitialized => "UNINITIALIZED",
            Type::Advertise => "ADVERTISE",
            Type::Subscribe => "SUBSCRIBE",
            Type::Unadvertise => "UNADVERTISE",
            Type::Heartbeat => "HEARTBEAT",
            Type::Bye => "BYE",
            Type::NewConnection => "NEW_CONNECTION",
            Type::EndConnection => "END_CONNECTION",
        }
    }

    /// The variant with the given schema name.
    pub fn from_str_name(value: &str) -> (r: Option<Self>)
        ensures
            r == kind_from_name(value@),
    {
        if str_eq(value, "UNINITIALIZED") {
            Some(Type::Uninitialized)
        } else if str_eq(value, "ADVERTISE") {
            Some(Type::Advertise)
        } else if str_eq(value, "SUBSCRIBE") {
            Some(Type::Subscribe)
        } else if str_eq(value, "UNADVERTISE") {
            Some(Type::Unadvertise)
        } else if str_eq(value, "HEARTBEAT") {
            Some(Type::Heartbeat)
        } else if str_eq(value, "BYE") {
            Some(Type::Bye)
        } else if str_eq(value, "NEW_CONNECTION") {
            Some(Type::NewConnection)
        } else if str_eq(value, "END_CONNECTION") {
            Some(Type::EndConnection)
        } else {
            None
        }
    }
}

/// A message publisher: what it publishes and how fast.
#[derive(Debug, Clone, PartialEq, Default)]
pub struct MessagePublisher {
    /// Control address; on a relayed connection, the subscriber's process.
    pub ctrl: String,
    pub msg_type: String,
    pub throttled: bool,
    pub msgs_per_sec: u64,
}

/// A service provider: the types it answers and its routing identity.
#[derive(Debug, Clone, PartialEq, Default)]
pub struct ServicePublisher {
    pub socket_id: String,
    pub request_type: String,
    pub response_type: String,
}

/// What a publisher offers.
#[derive(Debug, Clone, PartialEq)]
pub enum PubType {
    MsgPub(MessagePublisher),
    SrvPub(ServicePublisher),
}

/// A publisher record of the discovery protocol.
#[derive(Debug, Clone, PartialEq)]
pub struct Publisher {
    pub topic: String,
    pub address: String,
    pub process_uuid: String,
    pub node_uuid: String,
    pub scope: Scope,
    pub pub_type: Option<PubType>,
}

/// The subscriber record of a discovery probe: a topic only.
#[derive(Debug, Clone, PartialEq, Default)]
pub struct Subscriber {
    pub topic: String,
}

/// Relay flags of a discovery message.
#[derive(Debug, Clone, Copy, PartialEq, Eq, Structural, Default)]
pub struct Flags {
    pub relay: bool,
    pub no_relay: bool,
}

/// The optional contents of a discovery message.
#[derive(Debug, Clone, PartialEq)]
pub enum DiscContents {
    Sub(Subscriber),
    Pub(Publisher),
}

/// A discovery message.
#[derive(Debug, Clone, PartialEq)]
pub struct Discovery {
    pub version: u32,
    pub process_uuid: String,
    pub msg_type: Type,
    pub flags: Option<Flags>,
    pub disc_contents: Option<DiscContents>,
}

fn copy_string(s: &String) -> (r: String)
    ensures
        r == *s,
{
    s.clone()
}

impl MessagePublisher {
    /// A copy of this record.
    pub fn duplicate(&self) -> (r: Self)
        ensures
            r == *self,
    {
        MessagePublisher {
            ctrl: copy_string(&self.ctrl),
            msg_type: copy_string(&self.msg_type),
            throttled: self.throttled,
            msgs_per_sec: self.msgs_per_sec,
        }
    }
}

impl ServicePublisher {
    /// A copy of this record.
    pub fn duplicate(&self) -> (r: Self)
        ensures
            r == *self,
    {
        ServicePublisher {
            socket_id: copy_string(&self.socket_id),
            request_type: copy_string(&self.request_type),
            response_type: copy_string(&self.response_type),
        }
    }
}

impl PubType {
    /// A copy of this record.
    pub fn duplicate(&self) -> (r: Self)
        ensures
            r == *self,
    {
        match self {
            PubType::MsgPub(m) => PubType::MsgPub(m.duplicate()),
            PubType::SrvPub(s) => PubType::SrvPub(s.duplicate()),
        }
    }
}

impl Publisher {
    /// A copy of this record.
    pub fn duplicate(&self) -> (r: Self)
        ensures
            r == *self,
    {
        let pub_type = match &self.pub_type {
            Some(t) => Some(t.duplicate()),
            None => None,
        };
        Publisher {
            topic: copy_string(&self.topic),
            address: copy_string(&self.address),
            process_uuid: copy_string(&self.process_uuid),
            node_uuid: copy_string(&self.node_uuid),
            scope: self.scope,
            pub_type,
        }
    }

    /// A record that names only a process (and perhaps a topic), as carried by
    /// heartbeats, goodbyes and probes.
    pub fn bare(topic: &str, process_uuid: &str) -> (r: Self)
        ensures
            r.topic@ == topic@,
            r.address@ == Seq::<char>::empty(),
            r.process_uuid@ == process_uuid@,
            r.node_uuid@ == Seq::<char>::empty(),
            r.scope == Scope::Process,
            r.pub_type.is_none(),
    {
        Publisher {
            topic: String::from_str(topic),
            address: String::new(),
            process_uuid: String::from_str(process_uuid),
            node_uuid: String::new(),
            scope: Scope::Process,
            pub_type: None,
        }
    }
}

} // verus!
