//! Verified core of a blockchain node's peer-to-peer network service:
//! gossip topic naming, connection admission, peer-scoring constants and the
//! decisions of the service's event loop.
pub mod coordinator;
pub mod limits;
pub mod scoring;
pub mod topics;
