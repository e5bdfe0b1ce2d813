use vstd::prelude::*;
use crate::errors::EscrowErrorCode;

verus! {

/// The largest age, in seconds, at which a feed reading is still trusted.
pub const MAX_STALENESS: i64 = 300;

/// One reading of the price feed: its value and when it was last updated.
#[derive(Debug, Clone, Copy, PartialEq, Eq, Structural)]
pub struct FeedReading {
    pub value: u64,
    pub last_update: i64,
}

/// A reading is stale when more than `max_staleness` seconds have passed
/// since its last update.
pub open spec fn stale(last_update: i64, now: i64, max_staleness: i64) -> bool {
    now - last_update > max_staleness
}

/// What the price gate answers: staleness first, then the comparison.
pub open spec fn price_gate_result(
    reading: FeedReading,
    unlock_threshold: u64,
    now: i64,
    max_staleness: i64,
) -> Result<bool, EscrowErrorCode> {
    if stale(reading.last_update, now, max_staleness) {
        Err(EscrowErrorCode::StaleFeed)
    } else {
        Ok(reading.value >= unlock_threshold)
    }
}

/// Whether a feed last updated at `last_update` is too old to trust at time
/// `now`.
pub fn feed_is_stale(last_update: i64, now: i64, max_staleness: i64) -> (r: bool)
    ensures
        r == stale(last_update, now, max_staleness),
{
    (now as i128) - (last_update as i128) > max_staleness as i128
}

impl FeedReading {
    pub fn new(value: u64, last_update: i64) -> (r: FeedReading)
        ensures
            r.value == value,
            r.last_update == last_update,
    {
        FeedReading { value, last_update }
    }

    /// Whether this reading is too old to trust at time `now`.
    pub fn is_stale(&self, now: i64, max_staleness: i64) -> (r: bool)
        ensures
            r == stale(self.last_update, now, max_staleness),
    {
        feed_is_stale(self.last_update, now, max_staleness)
    }
}

/// Decides whether the feed permits releasing an escrow with the given
/// threshold. A stale reading is refused before its value is looked at; a
/// fresh one passes exactly when its value reaches the threshold.
pub fn can_unlock_by_price(
    reading: &FeedReading,
    unlock_threshold: u64,
    now: i64,
    max_staleness: i64,
) -> (r: Result<bool, EscrowErrorCode>)
    ensures
        r == price_gate_result(*reading, unlock_threshold, now, max_staleness),
{
    if reading.is_stale(now, max_staleness) {
        Err(EscrowErrorCode::StaleFeed)
    } else {
        Ok(reading.value >= unlock_threshold)
    }
}

} // verus!
