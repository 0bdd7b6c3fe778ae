use vstd::prelude::*;

pub mod output_cache;
pub mod user_cache;

verus! {

/// The "interval" for caching data.
///
/// This is not represented as a time interval, but a denominator for the current amount of chunks:
/// the export saves its position whenever the count of fetched chunks is a multiple of it.
///
/// Since 1 chunk = 100 messages, this will run the cache every 10.000 messages.
pub const CACHE_INTERVAL: u64 = 100;

} // verus!
