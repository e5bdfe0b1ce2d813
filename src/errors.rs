use vstd::prelude::*;

verus! {

/// Every way an escrow operation can fail. A failed operation leaves all
/// state exactly as it was.
#[derive(Debug, Clone, Copy, PartialEq, Eq, Structural)]
pub enum EscrowErrorCode {
    /// A deposit of zero units.
    ZeroAmount,
    /// The depositor's spendable balance is smaller than the deposit.
    InsufficientFunds,
    /// The depositor already has an active escrow.
    EscrowAlreadyExists,
    /// No active escrow is held for the given owner.
    EscrowNotFound,
    /// The price feed account is not the one this custody reads.
    InvalidPriceFeed,
    /// The price feed has not been updated recently enough to be trusted.
    StaleFeed,
    /// The price feed is fresh but has not reached the unlock threshold.
    SolPriceAboveUnlockPrice,
    /// The reported feed value is negative or does not fit in a `u64`.
    InvalidFeedValue,
    /// The randomness oracle is not bound to the client record it serves.
    InvalidVrfAuthorityError,
    /// A randomness client already exists for this escrow and oracle.
    VrfClientAlreadyExists,
    /// No randomness client exists for this escrow and oracle.
    VrfClientNotFound,
    /// A randomness request is already waiting for its fulfillment.
    RandomnessRequestOutstanding,
    /// A fulfillment arrived while no request was outstanding.
    NoOutstandingRequest,
    /// The round counter cannot be incremented any further.
    RoundCountOverflow,
    /// Crediting the withdrawn amount would overflow the receiver's balance.
    BalanceOverflow,
}

} // verus!
