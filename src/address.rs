//! The address a pool targets: one socket address, picked once, at
//! construction.
use vstd::prelude::*;

verus! {

/// An IP address as plain integers, in network bit order.
#[derive(Clone, Copy, Debug, PartialEq, Eq, Structural)]
pub enum IpAddress {
    V4(u32),
    V6 { bits: u128, flowinfo: u32, scope_id: u32 },
}

#[derive(Clone, Copy, Debug, PartialEq, Eq, Structural)]
pub struct SocketAddress {
    pub ip: IpAddress,
    pub port: u16,
}

/// Why a pool could not be built. Raised at construction, never later.
#[derive(Clone, Copy, Debug, PartialEq, Eq, Structural)]
pub enum ResolutionError {
    /// The port does not fit in 16 bits.
    InvalidPort,
    /// The host is malformed or its lookup failed.
    LookupFailed,
    /// The lookup succeeded but yielded no address.
    NoAddress,
}

/// The largest port number.
pub const MAX_PORT: u32 = 65535;

/// Narrows a requested port to a socket port, refusing one that does not fit.
pub fn checked_port(port: u32) -> (r: Result<u16, ResolutionError>)
    ensures
        port <= MAX_PORT ==> r == Ok::<u16, ResolutionError>(port as u16),
        port > MAX_PORT ==> r == Err::<u16, ResolutionError>(ResolutionError::InvalidPort),
{
    if port <= MAX_PORT {
        Ok(port as u16)
    } else {
        Err(ResolutionError::InvalidPort)
    }
}

/// The address a pool targets, out of the addresses that a lookup yielded:
/// always the first, never an alternate.
pub fn first_address(candidates: &Vec<SocketAddress>) -> (r: Result<SocketAddress, ResolutionError>)
    ensures
        candidates@.len() > 0 ==> r == Ok::<SocketAddress, ResolutionError>(candidates@[0]),
        candidates@.len() == 0 ==> r == Err::<SocketAddress, ResolutionError>(
            ResolutionError::NoAddress,
        ),
{
    if candidates.len() > 0 {
        Ok(candidates[0])
    } else {
        Err(ResolutionError::NoAddress)
    }
}

} // verus!
