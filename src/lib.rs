//! A connection pool that opens many outbound connections to one endpoint and
//! spreads payload buffers over them round-robin.
//!
//! This crate holds the decisions of the pool: which address a pool targets,
//! which attempt outcomes enter the live set, the life of one attempt, and
//! which payload each live connection is sent. The sockets, the TLS
//! handshakes and the concurrent fan-out are driven by the caller, which
//! hands the outcomes back as plain values.
use vstd::prelude::*;

pub mod address;
pub mod attempt;
pub mod dispatch;
pub mod laws;
pub mod pool;

verus! {

} // verus!
