use vstd::prelude::*;

verus! {

/// The largest scale a feed decimal may carry.
pub const MAX_DECIMAL_SCALE: u32 = 28;

/// The largest magnitude of a feed decimal's mantissa (96 bits).
pub const MAX_DECIMAL_MANTISSA: i128 = 0xFFFF_FFFF_FFFF_FFFF_FFFF_FFFF;

/// A feed result as the aggregator reports it: `mantissa / 10^scale`.
#[derive(Debug, Clone, Copy, PartialEq, Eq, Structural)]
pub struct FeedDecimal {
    pub mantissa: i128,
    pub scale: u32,
}

/// The latest confirmed round of the price aggregator: its result and the
/// time the round was opened.
#[derive(Debug, Clone, Copy, PartialEq, Eq, Structural)]
pub struct AggregatorRound {
    pub result: FeedDecimal,
    pub round_open_timestamp: i64,
}

pub open spec fn pow10(n: nat) -> int
    decreases n,
{
    if n == 0 {
        1
    } else {
        10 * pow10((n - 1) as nat)
    }
}

/// Whether a decimal can be represented at all.
pub open spec fn decimal_in_range(d: FeedDecimal) -> bool {
    &&& d.scale <= MAX_DECIMAL_SCALE
    &&& -MAX_DECIMAL_MANTISSA <= d.mantissa <= MAX_DECIMAL_MANTISSA
}

/// The whole-unit value of a decimal in range: its integer part, when it is
/// not negative and fits in a `u64`.
pub open spec fn truncated_u64(mantissa: i128, scale: u32) -> Option<u64> {
    if mantissa < 0 {
        None
    } else if (mantissa as int) / pow10(scale as nat) <= u64::MAX {
        Some(((mantissa as int) / pow10(scale as nat)) as u64)
    } else {
        None
    }
}

/// The value a decimal reading stands for, in whole units.
pub open spec fn feed_value(d: FeedDecimal) -> Option<u64> {
    if decimal_in_range(d) {
        truncated_u64(d.mantissa, d.scale)
    } else {
        None
    }
}

/// Relies on `switchboard_v2::SwitchboardDecimal`'s `TryInto<u64>`, which goes
/// through `rust_decimal::Decimal::to_u64`: a negative value gives no result,
/// otherwise the integer part, if it fits in 64 bits. The conversion panics
/// outside the representable range, which `requires` leaves out.
#[verifier::external_body]
fn switchboard_decimal_to_u64(mantissa: i128, scale: u32) -> (r: Option<u64>)
    requires
        scale <= MAX_DECIMAL_SCALE,
        -MAX_DECIMAL_MANTISSA <= mantissa <= MAX_DECIMAL_MANTISSA,
    ensures
        r == truncated_u64(mantissa, scale),
{
    let d = switchboard_v2::SwitchboardDecimal::new(mantissa, scale);
    let r: anchor_lang::Result<u64> = std::convert::TryInto::try_into(d);
    r.ok()
}

impl FeedDecimal {
    pub fn new(mantissa: i128, scale: u32) -> (r: FeedDecimal)
        ensures
            r == (FeedDecimal { mantissa, scale }),
    {
        FeedDecimal { mantissa, scale }
    }

    /// The value of this decimal in whole units: `None` when it is out of
    /// range, negative, or too large for a `u64`.
    pub fn to_u64(&self) -> (r: Option<u64>)
        ensures
            r == feed_value(*self),
    {
        if self.scale <= MAX_DECIMAL_SCALE && -MAX_DECIMAL_MANTISSA <= self.mantissa
            && self.mantissa <= MAX_DECIMAL_MANTISSA {
            switchboard_decimal_to_u64(self.mantissa, self.scale)
        } else {
            None
        }
    }
}

impl AggregatorRound {
    pub fn new(result: FeedDecimal, round_open_timestamp: i64) -> (r: AggregatorRound)
        ensures
            r == (AggregatorRound { result, round_open_timestamp }),
    {
        AggregatorRound { result, round_open_timestamp }
    }
}

} // verus!
