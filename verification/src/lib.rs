//! Verified core of a keeper that ingests events emitted by one on-chain
//! program: call-stack log attribution, discriminator-based event decoding,
//! idempotent persistence, reconnect/backoff, and health counters.
//!
//! Log lines, program identifiers and transaction signatures are carried as
//! byte strings (`Vec<u8>`), time as an abstract tick count supplied by the
//! caller. The surrounding binary owns the live feed connection and the
//! durable store; every decision — which program emitted a line, what a
//! payload means, whether a write is a duplicate, when to reconnect — is
//! made here, under contract.
use vstd::prelude::*;

pub mod attribution;
pub mod bytes;
pub mod decode;
pub mod events;
pub mod health;
pub mod markers;
pub mod pipeline;
pub mod registry;
pub mod runner;
pub mod store;

verus! {

/// Saturating increment, used by the health counters.
pub fn sat_inc(x: u64) -> (r: u64)
    ensures
        r == if x == u64::MAX { u64::MAX as int } else { x + 1 },
{
    if x < u64::MAX {
        x + 1
    } else {
        x
    }
}

} // verus!
