//! In-memory key-value caching with time-based expiration and
//! least-recently-used eviction, together with the audit and proxy
//! data structures that surround the cache in a request gateway.

use vstd::prelude::*;

pub mod audit;
pub mod cache;
pub mod policy;
pub mod proxy;
pub mod store;
pub mod text;

verus! {

/// Nanoseconds in one second, used to turn second-granularity TTLs
/// into the nanosecond counters the cache compares.
pub const NANOS_PER_SEC: u64 = 1_000_000_000;

} // verus!
