//! Publish/subscribe and request/response messaging between processes:
//! topic naming, peer discovery, dispatch bookkeeping and the wire layouts,
//! as verified decisions that a runtime drives.
pub mod discovery;
pub mod discovery_store;
pub mod discovery_types;
pub mod dispatcher;
pub mod dispatcher_store;
pub mod msgs;
pub mod options;
pub mod orchestrator;
pub mod text;
pub mod topic;
pub mod verbosity;
pub mod wire;
