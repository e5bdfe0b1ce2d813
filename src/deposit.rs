use vstd::prelude::*;
use crate::errors::EscrowErrorCode;
use crate::key::AccountKey;
use crate::state::{escrow_at, escrows_wf, holds_escrow, new_escrow, Escrow, EscrowBook};

verus! {

/// The accounts a deposit acts on: the depositor and what it may spend.
#[derive(Debug, Clone, Copy, PartialEq, Eq, Structural)]
pub struct Deposit {
    pub user: AccountKey,
    /// The depositor's spendable balance before the deposit.
    pub user_balance: u64,
}

/// What a deposit answers: the depositor's spendable balance afterwards, or
/// why nothing was deposited.
pub open spec fn deposit_result(s: Seq<Escrow>, ctx: Deposit, escrow_amount: u64) -> Result<u64, EscrowErrorCode> {
    if escrow_amount == 0 {
        Err(EscrowErrorCode::ZeroAmount)
    } else if holds_escrow(s, ctx.user) {
        Err(EscrowErrorCode::EscrowAlreadyExists)
    } else if escrow_amount > ctx.user_balance {
        Err(EscrowErrorCode::InsufficientFunds)
    } else {
        Ok((ctx.user_balance - escrow_amount) as u64)
    }
}

impl Deposit {
    pub fn new(user: AccountKey, user_balance: u64) -> (r: Deposit)
        ensures
            r == (Deposit { user, user_balance }),
    {
        Deposit { user, user_balance }
    }
}

/// Opens an escrow for `ctx.user` holding `escrow_amount`, released once the
/// price reaches `unlock_price`. The amount leaves the depositor's spendable
/// balance, whose new value is returned. A depositor with an active escrow
/// is refused, and a refused deposit changes nothing.
pub fn deposit_handler(book: &mut EscrowBook, ctx: &Deposit, escrow_amount: u64, unlock_price: u64) -> (r: Result<u64, EscrowErrorCode>)
    requires
        old(book).wf(),
    ensures
        final(book).wf(),
        r == deposit_result(old(book).escrows@, *ctx, escrow_amount),
        r is Ok ==> final(book).escrows@ == old(book).escrows@.push(
            new_escrow(ctx.user, escrow_amount, unlock_price),
        ),
        r is Err ==> final(book).escrows@ == old(book).escrows@,
        final(book).clients@ == old(book).clients@,
        final(book).price_feed == old(book).price_feed,
        final(book).policy == old(book).policy,
{
    if escrow_amount == 0 {
        return Err(EscrowErrorCode::ZeroAmount);
    }
    if book.find_escrow(&ctx.user).is_some() {
        return Err(EscrowErrorCode::EscrowAlreadyExists);
    }
    if escrow_amount > ctx.user_balance {
        return Err(EscrowErrorCode::InsufficientFunds);
    }
    let remaining = ctx.user_balance - escrow_amount;
    let ghost before = book.escrows@;
    book.escrows.push(
        Escrow { owner: ctx.user, balance: escrow_amount, unlock_threshold: unlock_price, early_release_granted: false },
    );
    assert forall|i: int, j: int|
        0 <= i < book.escrows@.len() && 0 <= j < book.escrows@.len()
            && book.escrows@[i].owner == book.escrows@[j].owner implies i == j by {
        if i < before.len() && j == before.len() {
            assert(escrow_at(before, ctx.user, i));
        }
        if j < before.len() && i == before.len() {
            assert(escrow_at(before, ctx.user, j));
        }
    }
    assert(escrows_wf(book.escrows@));
    Ok(remaining)
}

/// The entry point for a deposit.
pub fn deposit(book: &mut EscrowBook, ctx: &Deposit, escrow_amount: u64, unlock_price: u64) -> (r: Result<u64, EscrowErrorCode>)
    requires
        old(book).wf(),
    ensures
        final(book).wf(),
        r == deposit_result(old(book).escrows@, *ctx, escrow_amount),
        r is Ok ==> final(book).escrows@ == old(book).escrows@.push(
            new_escrow(ctx.user, escrow_amount, unlock_price),
        ),
        r is Err ==> final(book).escrows@ == old(book).escrows@,
        final(book).clients@ == old(book).clients@,
        final(book).price_feed == old(book).price_feed,
        final(book).policy == old(book).policy,
{
    deposit_handler(book, ctx, escrow_amount, unlock_price)
}

} // verus!
