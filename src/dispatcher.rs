//! Dispatchers and their index: topic, node and dispatcher id.
use vstd::prelude::*;
use vstd::string::StringExecFns;

use crate::text::opt_view;

verus! {

/// The capabilities that every dispatcher shares.
pub trait Dispatcher {
    spec fn spec_uuid(&self) -> Seq<char>;

    spec fn spec_topic(&self) -> Seq<char>;

    spec fn spec_node_uuid(&self) -> Seq<char>;

    spec fn spec_request_type(&self) -> Option<Seq<char>>;

    spec fn spec_response_type(&self) -> Option<Seq<char>>;

    fn uuid(&self) -> (r: &str)
        ensures
            r@ == self.spec_uuid(),
    ;

    fn topic(&self) -> (r: &str)
        ensures
            r@ == self.spec_topic(),
    ;

    fn node_uuid(&self) -> (r: &str)
        ensures
            r@ == self.spec_node_uuid(),
    ;

    fn request_type(&self) -> (r: Option<&str>)
        ensures
            opt_view(r) == self.spec_request_type(),
    ;

    fn response_type(&self) -> (r: Option<&str>)
        ensures
            opt_view(r) == self.spec_response_type(),
    ;
}

/// Why a dispatcher could not be registered.
#[derive(Debug, Clone, Copy, PartialEq, Eq, Structural)]
pub enum DispatcherError {
    /// A dispatcher with the same topic, node and id is already registered.
    AlreadyExists,
}

fn opt_str(o: &Option<String>) -> (r: Option<&str>)
    ensures
        opt_view(r) == match o {
            Some(s) => Some(s@),
            None => None::<Seq<char>>,
        },
{
    match o {
        Some(s) => Some(s.as_str()),
        None => None,
    }
}

pub open spec fn opt_string_view(o: Option<String>) -> Option<Seq<char>> {
    match o {
        Some(s) => Some(s@),
        None => None,
    }
}

/// A subscriber: a local one holds the channel that its messages go to, a
/// remote one has none and is served over the wire.
pub struct Subscriber<C> {
    pub uuid: String,
    pub process_uuid: String,
    pub node_uuid: String,
    pub topic: String,
    pub msg_type: String,
    pub sender: Option<C>,
}

impl<C> Subscriber<C> {
    /// A subscriber with the given id.
    pub fn new(uuid: &str, process_uuid: &str, node_uuid: &str, topic: &str, msg_type: &str, sender: Option<C>) -> (r: Self)
        ensures
            r.uuid@ == uuid@,
            r.process_uuid@ == process_uuid@,
            r.node_uuid@ == node_uuid@,
            r.topic@ == topic@,
            r.msg_type@ == msg_type@,
            r.sender == sender,
    {
        Subscriber {
            uuid: String::from_str(uuid),
            process_uuid: String::from_str(process_uuid),
            node_uuid: String::from_str(node_uuid),
            topic: String::from_str(topic),
            msg_type: String::from_str(msg_type),
            sender,
        }
    }

    /// Whether this subscriber lives in another process.
    pub fn is_remote(&self) -> (r: bool)
        ensures
            r == self.sender.is_none(),
    {
        self.sender.is_none()
    }
}

impl<C> Dispatcher for Subscriber<C> {
    open spec fn spec_uuid(&self) -> Seq<char> {
        self.uuid@
    }

    open spec fn spec_topic(&self) -> Seq<char> {
        self.topic@
    }

    open spec fn spec_node_uuid(&self) -> Seq<char> {
        self.node_uuid@
    }

    open spec fn spec_request_type(&self) -> Option<Seq<char>> {
        Some(self.msg_type@)
    }

    open spec fn spec_response_type(&self) -> Option<Seq<char>> {
        None
    }

    fn uuid(&self) -> (r: &str) {
        self.uuid.as_str()
    }

    fn topic(&self) -> (r: &str) {
        self.topic.as_str()
    }

    fn node_uuid(&self) -> (r: &str) {
        self.node_uuid.as_str()
    }

    fn request_type(&self) -> (r: Option<&str>) {
        Some(self.msg_type.as_str())
    }

    fn response_type(&self) -> (r: Option<&str>) {
        None
    }
}

/// What identifies a request and its types.
pub struct RequestInfo {
    pub topic: String,
    pub node_uuid: String,
    pub req_uuid: String,
    pub req_type: String,
    pub res_type: String,
}

/// A request that waits for a provider. Its message and reply slot are
/// taken out once it has been sent.
pub struct PendingRequest<M, S> {
    pub info: RequestInfo,
    pub message: Option<M>,
    pub sender: Option<S>,
    pub requested: bool,
    pub created: u64,
}

impl<M, S> PendingRequest<M, S> {
    pub fn new(info: RequestInfo, message: M, sender: S, created: u64) -> (r: Self)
        ensures
            r.info == info,
            r.message == Some(message),
            r.sender == Some(sender),
            !r.requested,
            r.created == created,
    {
        PendingRequest { info, message: Some(message), sender: Some(sender), requested: false, created }
    }

    /// Milliseconds since creation at `now` (zero if `now` is earlier).
    pub fn elapsed(&self, now: u64) -> (r: u64)
        ensures
            r == if now >= self.created { now - self.created } else { 0 },
    {
        if now >= self.created { now - self.created } else { 0 }
    }

    /// Whether the request has been sent to a provider.
    pub fn requested(&self) -> (r: bool)
        ensures
            r == self.requested,
    {
        self.requested
    }

    /// Takes the message and the reply slot out, marking the request sent.
    /// Both are gone afterwards; a request that lacks one of them yields
    /// nothing.
    pub fn take(&mut self) -> (r: Option<(M, S)>)
        ensures
            final(self).requested,
            final(self).message.is_none(),
            final(self).sender.is_none(),
            final(self).info == old(self).info,
            final(self).created == old(self).created,
            match r {
                Some((m, s)) => old(self).message == Some(m) && old(self).sender == Some(s),
                None => old(self).message.is_none() || old(self).sender.is_none(),
            },
    {
        self.requested = true;
        let m = self.message.take();
        let s = self.sender.take();
        match (m, s) {
            (Some(m), Some(s)) => Some((m, s)),
            _ => None,
        }
    }
}

impl<M, S> Dispatcher for PendingRequest<M, S> {
    open spec fn spec_uuid(&self) -> Seq<char> {
        self.info.req_uuid@
    }

    open spec fn spec_topic(&self) -> Seq<char> {
        self.info.topic@
    }

    open spec fn spec_node_uuid(&self) -> Seq<char> {
        self.info.node_uuid@
    }

    open spec fn spec_request_type(&self) -> Option<Seq<char>> {
        Some(self.info.req_type@)
    }

    open spec fn spec_response_type(&self) -> Option<Seq<char>> {
        Some(self.info.res_type@)
    }

    fn uuid(&self) -> (r: &str) {
        self.info.req_uuid.as_str()
    }

    fn topic(&self) -> (r: &str) {
        self.info.topic.as_str()
    }

    fn node_uuid(&self) -> (r: &str) {
        self.info.node_uuid.as_str()
    }

    fn request_type(&self) -> (r: Option<&str>) {
        Some(self.info.req_type.as_str())
    }

    fn response_type(&self) -> (r: Option<&str>) {
        Some(self.info.res_type.as_str())
    }
}

/// A request being served: a local requester's reply slot, or none when the
/// reply goes over the wire.
pub struct ResponseDispatcher<S> {
    pub info: RequestInfo,
    pub sender: Option<S>,
    pub remote: bool,
    pub done: bool,
    pub created: u64,
}

impl<S> ResponseDispatcher<S> {
    pub fn new(info: RequestInfo, sender: Option<S>, created: u64) -> (r: Self)
        ensures
            r.info == info,
            r.remote == sender.is_none(),
            r.sender == sender,
            !r.done,
            r.created == created,
    {
        let remote = sender.is_none();
        ResponseDispatcher { info, sender, remote, done: false, created }
    }

    /// Takes the reply slot out, if there is one.
    pub fn dispatch(&mut self) -> (r: Option<S>)
        ensures
            r == old(self).sender,
            final(self).sender.is_none(),
            final(self).info == old(self).info,
            final(self).remote == old(self).remote,
            final(self).done == old(self).done,
            final(self).created == old(self).created,
    {
        self.sender.take()
    }

    pub fn is_remote(&self) -> (r: bool)
        ensures
            r == self.remote,
    {
        self.remote
    }

    pub fn elapsed(&self, now: u64) -> (r: u64)
        ensures
            r == if now >= self.created { now - self.created } else { 0 },
    {
        if now >= self.created { now - self.created } else { 0 }
    }

    /// Marks the request served.
    pub fn done(&mut self)
        ensures
            final(self).done,
            final(self).info == old(self).info,
            final(self).sender == old(self).sender,
            final(self).remote == old(self).remote,
            final(self).created == old(self).created,
    {
        self.done = true;
    }

    pub fn is_done(&self) -> (r: bool)
        ensures
            r == self.done,
    {
        self.done
    }
}

impl<S> Dispatcher for ResponseDispatcher<S> {
    open spec fn spec_uuid(&self) -> Seq<char> {
        self.info.req_uuid@
    }

    open spec fn spec_topic(&self) -> Seq<char> {
        self.info.topic@
    }

    open spec fn spec_node_uuid(&self) -> Seq<char> {
        self.info.node_uuid@
    }

    open spec fn spec_request_type(&self) -> Option<Seq<char>> {
        Some(self.info.req_type@)
    }

    open spec fn spec_response_type(&self) -> Option<Seq<char>> {
        Some(self.info.res_type@)
    }

    fn uuid(&self) -> (r: &str) {
        self.info.req_uuid.as_str()
    }

    fn topic(&self) -> (r: &str) {
        self.info.topic.as_str()
    }

    fn node_uuid(&self) -> (r: &str) {
        self.info.node_uuid.as_str()
    }

    fn request_type(&self) -> (r: Option<&str>) {
        Some(self.info.req_type.as_str())
    }

    fn response_type(&self) -> (r: Option<&str>) {
        Some(self.info.res_type.as_str())
    }
}

/// A locally advertised service and the channel to its handler.
pub struct ServiceDispatcher<C> {
    pub uuid: String,
    pub node_uuid: String,
    pub topic: String,
    pub request_type: Option<String>,
    pub response_type: Option<String>,
    pub sender: C,
}

impl<C> ServiceDispatcher<C> {
    pub fn new(
        uuid: &str,
        node_uuid: &str,
        topic: &str,
        request_type: Option<&str>,
        response_type: Option<&str>,
        sender: C,
    ) -> (r: Self)
        ensures
            r.uuid@ == uuid@,
            r.node_uuid@ == node_uuid@,
            r.topic@ == topic@,
            opt_string_view(r.request_type) == opt_view(request_type),
            opt_string_view(r.response_type) == opt_view(response_type),
            r.sender == sender,
    {
        let request_type = match request_type {
            Some(t) => Some(String::from_str(t)),
            None => None,
        };
        let response_type = match response_type {
            Some(t) => Some(String::from_str(t)),
            None => None,
        };
        ServiceDispatcher {
            uuid: String::from_str(uuid),
            node_uuid: String::from_str(node_uuid),
            topic: String::from_str(topic),
            request_type,
            response_type,
            sender,
        }
    }
}

impl<C> Dispatcher for ServiceDispatcher<C> {
    open spec fn spec_uuid(&self) -> Seq<char> {
        self.uuid@
    }

    open spec fn spec_topic(&self) -> Seq<char> {
        self.topic@
    }

    open spec fn spec_node_uuid(&self) -> Seq<char> {
        self.node_uuid@
    }

    open spec fn spec_request_type(&self) -> Option<Seq<char>> {
        opt_string_view(self.request_type)
    }

    open spec fn spec_response_type(&self) -> Option<Seq<char>> {
        opt_string_view(self.response_type)
    }

    fn uuid(&self) -> (r: &str) {
        self.uuid.as_str()
    }

    fn topic(&self) -> (r: &str) {
        self.topic.as_str()
    }

    fn node_uuid(&self) -> (r: &str) {
        self.node_uuid.as_str()
    }

    fn request_type(&self) -> (r: Option<&str>) {
        opt_str(&self.request_type)
    }

    fn response_type(&self) -> (r: Option<&str>) {
        opt_str(&self.response_type)
    }
}

} // verus!
