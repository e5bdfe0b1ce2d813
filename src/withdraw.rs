use vstd::prelude::*;
use crate::errors::EscrowErrorCode;
use crate::feed::{feed_value, AggregatorRound};
use crate::key::AccountKey;
use crate::price_gate::{can_unlock_by_price, feed_is_stale, stale, FeedReading, MAX_STALENESS};
use crate::state::{escrow_at, escrows_wf, holds_escrow, Escrow, EscrowBook};

verus! {

/// The accounts a withdrawal acts on: the caller and its balance, the price
/// feed it presents, that feed's latest round, and the time now.
#[derive(Debug, Clone, Copy, PartialEq, Eq, Structural)]
pub struct Withdraw {
    pub user: AccountKey,
    /// The caller's spendable balance before the withdrawal.
    pub user_balance: u64,
    pub feed_aggregator: AccountKey,
    pub feed: AggregatorRound,
    pub now: i64,
}

/// A completed withdrawal: what moved, and the caller's balance afterwards.
#[derive(Debug, Clone, Copy, PartialEq, Eq, Structural)]
pub struct Withdrawal {
    pub amount: u64,
    pub user_balance: u64,
}

/// Crediting the whole escrow to the caller.
pub open spec fn release(e: Escrow, ctx: Withdraw) -> Result<Withdrawal, EscrowErrorCode> {
    if ctx.user_balance + e.balance > u64::MAX {
        Err(EscrowErrorCode::BalanceOverflow)
    } else {
        Ok(Withdrawal { amount: e.balance, user_balance: (ctx.user_balance + e.balance) as u64 })
    }
}

/// What withdrawing escrow `e` answers. With early release granted the feed
/// is not consulted; otherwise a stale feed is refused first, then a value
/// that cannot be read, then one below the threshold.
pub open spec fn withdraw_result(e: Escrow, price_feed: AccountKey, ctx: Withdraw) -> Result<Withdrawal, EscrowErrorCode> {
    if ctx.feed_aggregator != price_feed {
        Err(EscrowErrorCode::InvalidPriceFeed)
    } else if e.early_release_granted {
        release(e, ctx)
    } else if stale(ctx.feed.round_open_timestamp, ctx.now, MAX_STALENESS) {
        Err(EscrowErrorCode::StaleFeed)
    } else {
        match feed_value(ctx.feed.result) {
            None => Err(EscrowErrorCode::InvalidFeedValue),
            Some(value) => if value >= e.unlock_threshold {
                release(e, ctx)
            } else {
                Err(EscrowErrorCode::SolPriceAboveUnlockPrice)
            },
        }
    }
}

impl Withdraw {
    pub fn new(user: AccountKey, user_balance: u64, feed_aggregator: AccountKey, feed: AggregatorRound, now: i64) -> (r: Withdraw)
        ensures
            r == (Withdraw { user, user_balance, feed_aggregator, feed, now }),
    {
        Withdraw { user, user_balance, feed_aggregator, feed, now }
    }
}

/// Decides whether escrow `e` may be released to the caller now, and on
/// success credits its balance.
fn check_release(e: &Escrow, price_feed: &AccountKey, ctx: &Withdraw) -> (r: Result<Withdrawal, EscrowErrorCode>)
    ensures
        r == withdraw_result(*e, *price_feed, *ctx),
{
    if ctx.feed_aggregator != *price_feed {
        return Err(EscrowErrorCode::InvalidPriceFeed);
    }
    if !e.early_release_granted {
        if feed_is_stale(ctx.feed.round_open_timestamp, ctx.now, MAX_STALENESS) {
            return Err(EscrowErrorCode::StaleFeed);
        }
        let value = match ctx.feed.result.to_u64() {
            Some(v) => v,
            None => {
                return Err(EscrowErrorCode::InvalidFeedValue);
            },
        };
        let reading = FeedReading::new(value, ctx.feed.round_open_timestamp);
        match can_unlock_by_price(&reading, e.unlock_threshold, ctx.now, MAX_STALENESS) {
            Ok(true) => {},
            Ok(false) => {
                return Err(EscrowErrorCode::SolPriceAboveUnlockPrice);
            },
            Err(err) => {
                return Err(err);
            },
        }
    }
    match ctx.user_balance.checked_add(e.balance) {
        Some(user_balance) => Ok(Withdrawal { amount: e.balance, user_balance }),
        None => Err(EscrowErrorCode::BalanceOverflow),
    }
}

/// Releases `ctx.user`'s escrow to it, when early release was granted or a
/// fresh feed reading has reached the escrow's threshold. The whole balance
/// moves and the escrow is destroyed; a refused withdrawal changes nothing.
pub fn withdraw_handler(book: &mut EscrowBook, ctx: &Withdraw) -> (r: Result<Withdrawal, EscrowErrorCode>)
    requires
        old(book).wf(),
    ensures
        final(book).wf(),
        !holds_escrow(old(book).escrows@, ctx.user) ==> r == Err::<Withdrawal, EscrowErrorCode>(
            EscrowErrorCode::EscrowNotFound,
        ),
        forall|i: int|
            #[trigger] escrow_at(old(book).escrows@, ctx.user, i) ==> {
                &&& r == withdraw_result(old(book).escrows@[i], old(book).price_feed, *ctx)
                &&& r is Ok ==> final(book).escrows@ == old(book).escrows@.remove(i)
            },
        r is Err ==> final(book).escrows@ == old(book).escrows@,
        final(book).clients@ == old(book).clients@,
        final(book).price_feed == old(book).price_feed,
        final(book).policy == old(book).policy,
{
    let i = match book.find_escrow(&ctx.user) {
        Some(i) => i,
        None => {
            return Err(EscrowErrorCode::EscrowNotFound);
        },
    };
    let e = book.escrows[i];
    let withdrawal = check_release(&e, &book.price_feed, ctx)?;
    let ghost before = book.escrows@;
    let _closed = book.escrows.remove(i);
    assert forall|a: int, b: int|
        0 <= a < book.escrows@.len() && 0 <= b < book.escrows@.len()
            && book.escrows@[a].owner == book.escrows@[b].owner implies a == b by {
        let a0 = if a < i { a } else { a + 1 };
        let b0 = if b < i { b } else { b + 1 };
        assert(before[a0].owner == before[b0].owner);
    }
    assert(escrows_wf(book.escrows@));
    Ok(withdrawal)
}

/// The entry point for a withdrawal.
pub fn withdraw(book: &mut EscrowBook, ctx: &Withdraw) -> (r: Result<Withdrawal, EscrowErrorCode>)
    requires
        old(book).wf(),
    ensures
        final(book).wf(),
        !holds_escrow(old(book).escrows@, ctx.user) ==> r == Err::<Withdrawal, EscrowErrorCode>(
            EscrowErrorCode::EscrowNotFound,
        ),
        forall|i: int|
            #[trigger] escrow_at(old(book).escrows@, ctx.user, i) ==> {
                &&& r == withdraw_result(old(book).escrows@[i], old(book).price_feed, *ctx)
                &&& r is Ok ==> final(book).escrows@ == old(book).escrows@.remove(i)
            },
        r is Err ==> final(book).escrows@ == old(book).escrows@,
        final(book).clients@ == old(book).clients@,
        final(book).price_feed == old(book).price_feed,
        final(book).policy == old(book).policy,
{
    withdraw_handler(book, ctx)
}

} // verus!
