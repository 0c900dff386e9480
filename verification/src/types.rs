//! Plain value types shared by the whole control plane.

use vstd::prelude::*;

verus! {

/// A transport-level address: an IP address (any family, widened to one
/// integer) together with a port.
#[derive(Clone, Copy, PartialEq, Eq, Structural, Debug)]
pub struct TransportAddr {
    pub ip: u128,
    pub port: u16,
}

/// Identifies one relay session: the client address, the server address and
/// the transport protocol.  The control plane uses it only as a lookup key.
#[derive(Clone, Copy, PartialEq, Eq, Structural, Debug)]
pub struct FiveTuple {
    pub protocol: u8,
    pub src_addr: TransportAddr,
    pub dst_addr: TransportAddr,
}

/// The errors the control plane reports.
#[derive(Clone, Copy, PartialEq, Eq, Structural, Debug)]
pub enum Error {
    /// An administrative call was made after the server was closed, or no
    /// listener subscription remained to serve it.
    Closed,
    /// A metrics lookup named a five-tuple with no matching session.
    NoSuchAllocation,
    /// A configuration without any transport was supplied.
    NoAvailableConns,
}

} // verus!
