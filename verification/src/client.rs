//! How a client reaches a broker.
use vstd::prelude::*;

verus! {

/// The transport a client reaches its broker over.
#[derive(Debug)]
pub enum VaccelConfig {
    /// In-memory handling of requests, by a broker in the client's process.
    Local,
    /// Request handling over a vsock socket: context id and port.
    Vsock(u32, u32),
    /// Request handling over a UNIX socket at this path.
    Unix(String),
}

} // verus!
