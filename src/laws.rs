use vstd::prelude::*;
use crate::deposit::{deposit_result, Deposit};
use crate::errors::EscrowErrorCode;
use crate::key::AccountKey;
use crate::price_gate::{price_gate_result, stale, FeedReading, MAX_STALENESS};
use crate::randomness::{after_fulfillment, fulfill_result, DiceOutcome, RoundPhase, VrfClient};
use crate::state::{escrow_at, escrows_wf, holds_escrow, new_escrow, Escrow};
use crate::withdraw::{withdraw_result, Withdraw, Withdrawal};

verus! {

/// Once a deposit has succeeded, any further deposit of a positive amount by
/// the same owner is refused because the escrow exists, and the escrow the
/// first deposit created is the owner's one escrow.
pub proof fn lemma_second_deposit_refused(
    s: Seq<Escrow>,
    first: Deposit,
    escrow_amount: u64,
    unlock_price: u64,
    second: Deposit,
    second_amount: u64,
)
    requires
        escrows_wf(s),
        deposit_result(s, first, escrow_amount) is Ok,
        second.user == first.user,
        second_amount > 0,
    ensures
        ({
            let after = s.push(new_escrow(first.user, escrow_amount, unlock_price));
            &&& deposit_result(after, second, second_amount) == Err::<u64, EscrowErrorCode>(
                EscrowErrorCode::EscrowAlreadyExists,
            )
            &&& escrow_at(after, first.user, s.len() as int)
            &&& after[s.len() as int] == new_escrow(first.user, escrow_amount, unlock_price)
            &&& after.drop_last() == s
        }),
{
    let after = s.push(new_escrow(first.user, escrow_amount, unlock_price));
    assert(escrow_at(after, first.user, s.len() as int));
    assert(after.drop_last() =~= s);
}

/// A reading last updated more than the allowed age ago is refused as stale,
/// whatever its value and the threshold.
pub proof fn lemma_stale_reading_refused(reading: FeedReading, unlock_threshold: u64, now: i64)
    requires
        reading.last_update < now - MAX_STALENESS,
    ensures
        price_gate_result(reading, unlock_threshold, now, MAX_STALENESS) == Err::<bool, EscrowErrorCode>(
            EscrowErrorCode::StaleFeed,
        ),
{
}

/// A fresh reading unlocks exactly when its value is at least the
/// threshold.
pub proof fn lemma_fresh_reading_compares(reading: FeedReading, unlock_threshold: u64, now: i64, max_staleness: i64)
    requires
        !stale(reading.last_update, now, max_staleness),
    ensures
        price_gate_result(reading, unlock_threshold, now, max_staleness) == Ok::<bool, EscrowErrorCode>(
            reading.value >= unlock_threshold,
        ),
{
}

/// An escrow granted early release is paid out in full whatever the feed
/// reports and however old its round is, provided the configured feed
/// account is presented and the caller's balance can take the amount.
pub proof fn lemma_early_release_ignores_feed(e: Escrow, price_feed: AccountKey, ctx: Withdraw)
    requires
        e.early_release_granted,
        ctx.feed_aggregator == price_feed,
        ctx.user_balance + e.balance <= u64::MAX,
    ensures
        withdraw_result(e, price_feed, ctx) == Ok::<Withdrawal, EscrowErrorCode>(
            Withdrawal { amount: e.balance, user_balance: (ctx.user_balance + e.balance) as u64 },
        ),
{
}

/// A fulfillment is refused while no request is outstanding.
pub proof fn lemma_consume_needs_request(c: VrfClient, result: Seq<u8>)
    requires
        c.phase == RoundPhase::Idle,
    ensures
        fulfill_result(c, result) == Err::<DiceOutcome, EscrowErrorCode>(
            EscrowErrorCode::NoOutstandingRequest,
        ),
{
}

/// An outstanding request is fulfilled once: the round count grows by one,
/// the client returns to idle, and a second fulfillment is refused.
pub proof fn lemma_consume_once_per_request(c: VrfClient, result: [u8; 32], now: i64, again: Seq<u8>)
    requires
        c.wf(),
        c.phase == RoundPhase::AwaitingFulfillment,
        c.roll_count < u64::MAX,
    ensures
        fulfill_result(c, result@) is Ok,
        after_fulfillment(c, result, now).roll_count == c.roll_count + 1,
        after_fulfillment(c, result, now).phase == RoundPhase::Idle,
        fulfill_result(after_fulfillment(c, result, now), again) == Err::<DiceOutcome, EscrowErrorCode>(
            EscrowErrorCode::NoOutstandingRequest,
        ),
{
}

/// After an owner's escrow is removed by a withdrawal the owner holds no
/// escrow, so a second withdrawal finds nothing to release.
pub proof fn lemma_withdrawn_escrow_gone(s: Seq<Escrow>, owner: AccountKey, i: int)
    requires
        escrows_wf(s),
        escrow_at(s, owner, i),
    ensures
        !holds_escrow(s.remove(i), owner),
        escrows_wf(s.remove(i)),
{
    let after = s.remove(i);
    assert forall|k: int| !escrow_at(after, owner, k) by {
        if escrow_at(after, owner, k) {
            let k0 = if k < i { k } else { k + 1 };
            assert(s[k0].owner == owner);
        }
    }
    assert forall|a: int, b: int|
        0 <= a < after.len() && 0 <= b < after.len() && after[a].owner == after[b].owner implies a
        == b by {
        let a0 = if a < i { a } else { a + 1 };
        let b0 = if b < i { b } else { b + 1 };
        assert(s[a0].owner == s[b0].owner);
    }
}

} // verus!
