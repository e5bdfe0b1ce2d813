use burry_escrow::deposit::{deposit, deposit_handler, Deposit};
use burry_escrow::errors::EscrowErrorCode;
use burry_escrow::feed::{AggregatorRound, FeedDecimal};
use burry_escrow::key::AccountKey;
use burry_escrow::price_gate::{can_unlock_by_price, FeedReading, MAX_STALENESS};
use burry_escrow::randomness::{roll_die, DiceOutcome, EarlyReleasePolicy, RoundPhase, VrfClient};
use burry_escrow::state::EscrowBook;
use burry_escrow::vrf_client::{
    consume_randomness, init_vrf_client_handler, request_randomness, ConsumeRandomness,
    InitVrfClient,
};
use burry_escrow::withdraw::{withdraw, withdraw_handler, Withdraw, Withdrawal};

const NOW: i64 = 1_700_000_000;

fn user() -> AccountKey {
    AccountKey::new(11, 12, 13, 14)
}

fn feed_key() -> AccountKey {
    AccountKey::new(21, 22, 23, 24)
}

fn vrf_key() -> AccountKey {
    AccountKey::new(31, 32, 33, 34)
}

fn client_key() -> AccountKey {
    AccountKey::new(41, 42, 43, 44)
}

fn book(policy: EarlyReleasePolicy) -> EscrowBook {
    EscrowBook::new(feed_key(), policy)
}

fn reading(value: i128, at: i64) -> AggregatorRound {
    AggregatorRound::new(FeedDecimal::new(value, 0), at)
}

fn withdraw_ctx(value: i128, at: i64) -> Withdraw {
    Withdraw::new(user(), 500, feed_key(), reading(value, at), NOW)
}

fn fulfillment(a: u8, b: u8) -> [u8; 32] {
    let mut bytes = [0u8; 32];
    bytes[0] = a;
    bytes[1] = b;
    bytes
}

fn open_client(b: &mut EscrowBook) {
    let ctx = InitVrfClient::new(user(), client_key(), vrf_key(), client_key());
    assert_eq!(init_vrf_client_handler(b, &ctx), Ok(()));
}

fn consume_ctx() -> ConsumeRandomness {
    ConsumeRandomness::new(user(), vrf_key(), client_key(), NOW)
}

#[test]
fn deposit_creates_escrow_and_debits_depositor() {
    let mut b = book(EarlyReleasePolicy::Doubles);
    assert_eq!(deposit(&mut b, &Deposit::new(user(), 5000), 1000, 50), Ok(4000));
    assert_eq!(b.escrows.len(), 1);
    assert_eq!(b.escrows[0].owner, user());
    assert_eq!(b.escrows[0].balance, 1000);
    assert_eq!(b.escrows[0].unlock_threshold, 50);
    assert!(!b.escrows[0].early_release_granted);
}

#[test]
fn second_deposit_is_refused_and_first_kept() {
    let mut b = book(EarlyReleasePolicy::Doubles);
    assert_eq!(deposit_handler(&mut b, &Deposit::new(user(), 5000), 1000, 50), Ok(4000));
    let first = b.escrows[0];
    assert_eq!(
        deposit_handler(&mut b, &Deposit::new(user(), 4000), 7, 90),
        Err(EscrowErrorCode::EscrowAlreadyExists)
    );
    assert_eq!(b.escrows.len(), 1);
    assert_eq!(b.escrows[0], first);
}

#[test]
fn deposit_of_zero_is_refused() {
    let mut b = book(EarlyReleasePolicy::Doubles);
    assert_eq!(deposit(&mut b, &Deposit::new(user(), 5000), 0, 50), Err(EscrowErrorCode::ZeroAmount));
    assert!(b.escrows.is_empty());
}

#[test]
fn deposit_beyond_spendable_balance_is_refused() {
    let mut b = book(EarlyReleasePolicy::Doubles);
    assert_eq!(
        deposit(&mut b, &Deposit::new(user(), 999), 1000, 50),
        Err(EscrowErrorCode::InsufficientFunds)
    );
    assert!(b.escrows.is_empty());
    assert_eq!(deposit(&mut b, &Deposit::new(user(), 1000), 1000, 50), Ok(0));
}

#[test]
fn price_gate_refuses_stale_reading_whatever_the_value() {
    let r = FeedReading::new(u64::MAX, NOW - 301);
    assert_eq!(can_unlock_by_price(&r, 0, NOW, MAX_STALENESS), Err(EscrowErrorCode::StaleFeed));
    assert!(r.is_stale(NOW, MAX_STALENESS));
}

#[test]
fn price_gate_accepts_reading_exactly_at_the_limit() {
    let r = FeedReading::new(50, NOW - 300);
    assert!(!r.is_stale(NOW, MAX_STALENESS));
    assert_eq!(can_unlock_by_price(&r, 50, NOW, MAX_STALENESS), Ok(true));
}

#[test]
fn price_gate_compares_fresh_reading() {
    assert_eq!(can_unlock_by_price(&FeedReading::new(49, NOW), 50, NOW, MAX_STALENESS), Ok(false));
    assert_eq!(can_unlock_by_price(&FeedReading::new(50, NOW), 50, NOW, MAX_STALENESS), Ok(true));
    assert_eq!(can_unlock_by_price(&FeedReading::new(51, NOW), 50, NOW, MAX_STALENESS), Ok(true));
}

#[test]
fn price_gate_handles_extreme_timestamps() {
    let r = FeedReading::new(10, i64::MIN);
    assert_eq!(can_unlock_by_price(&r, 1, i64::MAX, MAX_STALENESS), Err(EscrowErrorCode::StaleFeed));
    let future = FeedReading::new(10, i64::MAX);
    assert_eq!(can_unlock_by_price(&future, 1, i64::MIN, MAX_STALENESS), Ok(true));
}

#[test]
fn feed_decimal_truncates_to_whole_units() {
    assert_eq!(FeedDecimal::new(12345, 2).to_u64(), Some(123));
    assert_eq!(FeedDecimal::new(60, 0).to_u64(), Some(60));
    assert_eq!(FeedDecimal::new(999, 3).to_u64(), Some(0));
}

#[test]
fn feed_decimal_rejects_negative_and_oversized_values() {
    assert_eq!(FeedDecimal::new(-5, 0).to_u64(), None);
    assert_eq!(FeedDecimal::new(-1, 3).to_u64(), None);
    assert_eq!(FeedDecimal::new(1i128 << 64, 0).to_u64(), None);
    assert_eq!(FeedDecimal::new((1i128 << 64) - 1, 0).to_u64(), Some(u64::MAX));
    assert_eq!(FeedDecimal::new(1, 29).to_u64(), None);
    assert_eq!(FeedDecimal::new(1i128 << 96, 0).to_u64(), None);
}

#[test]
fn withdraw_waits_for_price_then_releases() {
    let mut b = book(EarlyReleasePolicy::Doubles);
    assert_eq!(deposit(&mut b, &Deposit::new(user(), 1000), 1000, 50), Ok(0));
    assert_eq!(withdraw(&mut b, &withdraw_ctx(40, NOW)), Err(EscrowErrorCode::SolPriceAboveUnlockPrice));
    assert_eq!(b.escrows.len(), 1);
    assert_eq!(b.escrows[0].balance, 1000);
    assert_eq!(
        withdraw(&mut b, &withdraw_ctx(60, NOW)),
        Ok(Withdrawal { amount: 1000, user_balance: 1500 })
    );
    assert!(b.escrows.is_empty());
}

#[test]
fn withdraw_refuses_stale_feed_whatever_the_value() {
    let mut b = book(EarlyReleasePolicy::Doubles);
    assert_eq!(deposit(&mut b, &Deposit::new(user(), 1000), 1000, 50), Ok(0));
    assert_eq!(withdraw(&mut b, &withdraw_ctx(60, NOW - 301)), Err(EscrowErrorCode::StaleFeed));
    assert_eq!(withdraw(&mut b, &withdraw_ctx(40, NOW - 301)), Err(EscrowErrorCode::StaleFeed));
    assert_eq!(withdraw(&mut b, &withdraw_ctx(-3, NOW - 301)), Err(EscrowErrorCode::StaleFeed));
    assert_eq!(b.escrows.len(), 1);
}

#[test]
fn withdraw_refuses_unreadable_feed_value() {
    let mut b = book(EarlyReleasePolicy::Doubles);
    assert_eq!(deposit(&mut b, &Deposit::new(user(), 1000), 1000, 50), Ok(0));
    assert_eq!(withdraw(&mut b, &withdraw_ctx(-60, NOW)), Err(EscrowErrorCode::InvalidFeedValue));
    assert_eq!(b.escrows.len(), 1);
}

#[test]
fn withdraw_refuses_other_feed_account() {
    let mut b = book(EarlyReleasePolicy::Doubles);
    assert_eq!(deposit(&mut b, &Deposit::new(user(), 1000), 1000, 50), Ok(0));
    let ctx = Withdraw::new(user(), 0, vrf_key(), reading(60, NOW), NOW);
    assert_eq!(withdraw(&mut b, &ctx), Err(EscrowErrorCode::InvalidPriceFeed));
    assert_eq!(b.escrows.len(), 1);
}

#[test]
fn withdraw_refuses_balance_overflow() {
    let mut b = book(EarlyReleasePolicy::Doubles);
    assert_eq!(deposit(&mut b, &Deposit::new(user(), 1000), 1000, 50), Ok(0));
    let ctx = Withdraw::new(user(), u64::MAX - 999, feed_key(), reading(60, NOW), NOW);
    assert_eq!(withdraw(&mut b, &ctx), Err(EscrowErrorCode::BalanceOverflow));
    let ctx = Withdraw::new(user(), u64::MAX - 1000, feed_key(), reading(60, NOW), NOW);
    assert_eq!(withdraw(&mut b, &ctx), Ok(Withdrawal { amount: 1000, user_balance: u64::MAX }));
}

#[test]
fn second_withdrawal_finds_no_escrow() {
    let mut b = book(EarlyReleasePolicy::Doubles);
    assert_eq!(deposit(&mut b, &Deposit::new(user(), 1000), 1000, 50), Ok(0));
    assert!(withdraw_handler(&mut b, &withdraw_ctx(60, NOW)).is_ok());
    assert_eq!(withdraw_handler(&mut b, &withdraw_ctx(60, NOW)), Err(EscrowErrorCode::EscrowNotFound));
    assert!(b.escrows.is_empty());
}

#[test]
fn withdraw_touches_only_the_callers_escrow() {
    let mut b = book(EarlyReleasePolicy::Doubles);
    let other = AccountKey::new(1, 1, 1, 1);
    assert_eq!(deposit(&mut b, &Deposit::new(other, 300), 300, 10), Ok(0));
    assert_eq!(deposit(&mut b, &Deposit::new(user(), 1000), 1000, 50), Ok(0));
    assert!(withdraw(&mut b, &withdraw_ctx(60, NOW)).is_ok());
    assert_eq!(b.escrows.len(), 1);
    assert_eq!(b.escrows[0].owner, other);
}

#[test]
fn doubles_grant_early_release_despite_unreached_price() {
    let mut b = book(EarlyReleasePolicy::Doubles);
    assert_eq!(deposit(&mut b, &Deposit::new(user(), 1000), 1000, 1_000_000), Ok(0));
    open_client(&mut b);
    assert_eq!(request_randomness(&mut b, &user(), &vrf_key()), Ok(0));
    let outcome = consume_randomness(&mut b, &consume_ctx(), fulfillment(5, 11)).unwrap();
    assert_eq!(outcome.dice, DiceOutcome { die_result_1: 6, die_result_2: 6 });
    assert!(outcome.early_release);
    assert!(b.escrows[0].early_release_granted);
    assert_eq!(b.clients[0].die_result_1, 6);
    assert_eq!(b.clients[0].die_result_2, 6);
    assert_eq!(b.clients[0].roll_count, 1);
    assert_eq!(b.clients[0].timestamp, NOW);
    assert_eq!(b.clients[0].result_buffer, fulfillment(5, 11));
    assert_eq!(
        withdraw(&mut b, &withdraw_ctx(40, NOW)),
        Ok(Withdrawal { amount: 1000, user_balance: 1500 })
    );
    assert!(b.escrows.is_empty());
}

#[test]
fn early_release_ignores_stale_and_unreadable_feed() {
    let mut b = book(EarlyReleasePolicy::Doubles);
    assert_eq!(deposit(&mut b, &Deposit::new(user(), 1000), 1000, 1_000_000), Ok(0));
    open_client(&mut b);
    assert_eq!(request_randomness(&mut b, &user(), &vrf_key()), Ok(0));
    assert!(consume_randomness(&mut b, &consume_ctx(), fulfillment(0, 6)).unwrap().early_release);
    assert_eq!(
        withdraw(&mut b, &withdraw_ctx(-40, NOW - 10_000)),
        Ok(Withdrawal { amount: 1000, user_balance: 1500 })
    );
}

#[test]
fn losing_roll_leaves_escrow_locked() {
    let mut b = book(EarlyReleasePolicy::Doubles);
    assert_eq!(deposit(&mut b, &Deposit::new(user(), 1000), 1000, 1_000_000), Ok(0));
    open_client(&mut b);
    assert_eq!(request_randomness(&mut b, &user(), &vrf_key()), Ok(0));
    let outcome = consume_randomness(&mut b, &consume_ctx(), fulfillment(0, 1)).unwrap();
    assert_eq!(outcome.dice, DiceOutcome { die_result_1: 1, die_result_2: 2 });
    assert!(!outcome.early_release);
    assert!(!b.escrows[0].early_release_granted);
    assert_eq!(withdraw(&mut b, &withdraw_ctx(40, NOW)), Err(EscrowErrorCode::SolPriceAboveUnlockPrice));
}

#[test]
fn consume_without_request_is_refused() {
    let mut b = book(EarlyReleasePolicy::Doubles);
    assert_eq!(deposit(&mut b, &Deposit::new(user(), 1000), 1000, 50), Ok(0));
    open_client(&mut b);
    assert_eq!(
        consume_randomness(&mut b, &consume_ctx(), fulfillment(5, 11)),
        Err(EscrowErrorCode::NoOutstandingRequest)
    );
    assert_eq!(b.clients[0].roll_count, 0);
    assert!(!b.escrows[0].early_release_granted);
}

#[test]
fn consume_is_accepted_once_per_request() {
    let mut b = book(EarlyReleasePolicy::Never);
    assert_eq!(deposit(&mut b, &Deposit::new(user(), 1000), 1000, 50), Ok(0));
    open_client(&mut b);
    assert_eq!(request_randomness(&mut b, &user(), &vrf_key()), Ok(0));
    assert_eq!(b.clients[0].phase, RoundPhase::AwaitingFulfillment);
    assert!(consume_randomness(&mut b, &consume_ctx(), fulfillment(5, 11)).is_ok());
    assert_eq!(b.clients[0].roll_count, 1);
    assert_eq!(b.clients[0].phase, RoundPhase::Idle);
    assert_eq!(
        consume_randomness(&mut b, &consume_ctx(), fulfillment(5, 11)),
        Err(EscrowErrorCode::NoOutstandingRequest)
    );
    assert_eq!(b.clients[0].roll_count, 1);
    assert_eq!(request_randomness(&mut b, &user(), &vrf_key()), Ok(1));
    assert!(consume_randomness(&mut b, &consume_ctx(), fulfillment(2, 3)).is_ok());
    assert_eq!(b.clients[0].roll_count, 2);
}

#[test]
fn second_request_while_outstanding_is_refused() {
    let mut b = book(EarlyReleasePolicy::Doubles);
    assert_eq!(deposit(&mut b, &Deposit::new(user(), 1000), 1000, 50), Ok(0));
    open_client(&mut b);
    assert_eq!(request_randomness(&mut b, &user(), &vrf_key()), Ok(0));
    assert_eq!(
        request_randomness(&mut b, &user(), &vrf_key()),
        Err(EscrowErrorCode::RandomnessRequestOutstanding)
    );
}

#[test]
fn request_without_client_is_refused() {
    let mut b = book(EarlyReleasePolicy::Doubles);
    assert_eq!(request_randomness(&mut b, &user(), &vrf_key()), Err(EscrowErrorCode::VrfClientNotFound));
    assert_eq!(
        consume_randomness(&mut b, &consume_ctx(), fulfillment(5, 11)),
        Err(EscrowErrorCode::VrfClientNotFound)
    );
}

#[test]
fn consume_from_wrong_authority_is_refused() {
    let mut b = book(EarlyReleasePolicy::Doubles);
    assert_eq!(deposit(&mut b, &Deposit::new(user(), 1000), 1000, 50), Ok(0));
    open_client(&mut b);
    assert_eq!(request_randomness(&mut b, &user(), &vrf_key()), Ok(0));
    let ctx = ConsumeRandomness::new(user(), vrf_key(), vrf_key(), NOW);
    assert_eq!(
        consume_randomness(&mut b, &ctx, fulfillment(5, 11)),
        Err(EscrowErrorCode::InvalidVrfAuthorityError)
    );
    assert_eq!(b.clients[0].phase, RoundPhase::AwaitingFulfillment);
}

#[test]
fn init_client_checks_escrow_authority_and_duplicates() {
    let mut b = book(EarlyReleasePolicy::Doubles);
    let ctx = InitVrfClient::new(user(), client_key(), vrf_key(), client_key());
    assert_eq!(init_vrf_client_handler(&mut b, &ctx), Err(EscrowErrorCode::EscrowNotFound));
    assert_eq!(deposit(&mut b, &Deposit::new(user(), 1000), 1000, 50), Ok(0));
    let bad = InitVrfClient::new(user(), client_key(), vrf_key(), vrf_key());
    assert_eq!(init_vrf_client_handler(&mut b, &bad), Err(EscrowErrorCode::InvalidVrfAuthorityError));
    assert!(b.clients.is_empty());
    assert_eq!(init_vrf_client_handler(&mut b, &ctx), Ok(()));
    let c = b.clients[0];
    assert_eq!(c.key, client_key());
    assert_eq!(c.escrow, user());
    assert_eq!(c.vrf, vrf_key());
    assert_eq!(c.dice_type, 6);
    assert_eq!(c.roll_count, 0);
    assert_eq!(c.timestamp, 0);
    assert_eq!(c.result_buffer, [0u8; 32]);
    assert_eq!(init_vrf_client_handler(&mut b, &ctx), Err(EscrowErrorCode::VrfClientAlreadyExists));
    assert_eq!(b.clients.len(), 1);
}

#[test]
fn round_count_overflow_is_refused() {
    let mut c = VrfClient::new(client_key(), user(), vrf_key());
    c.roll_count = u64::MAX;
    assert_eq!(c.request(), Ok(u64::MAX));
    assert_eq!(c.fulfill(fulfillment(1, 1), NOW), Err(EscrowErrorCode::RoundCountOverflow));
    assert_eq!(c.roll_count, u64::MAX);
}

#[test]
fn dice_cover_every_face() {
    assert_eq!(roll_die(0, 6), 1);
    assert_eq!(roll_die(5, 6), 6);
    assert_eq!(roll_die(6, 6), 1);
    assert_eq!(roll_die(255, 6), 4);
    for byte in 0..=255u8 {
        let r = roll_die(byte, 6);
        assert!((1..=6).contains(&r));
    }
}

#[test]
fn policies_decide_from_the_dice() {
    let doubles = DiceOutcome { die_result_1: 3, die_result_2: 3 };
    let mixed = DiceOutcome { die_result_1: 6, die_result_2: 5 };
    assert!(EarlyReleasePolicy::Doubles.grants(&doubles));
    assert!(!EarlyReleasePolicy::Doubles.grants(&mixed));
    assert!(EarlyReleasePolicy::SumAtLeast { total: 11 }.grants(&mixed));
    assert!(!EarlyReleasePolicy::SumAtLeast { total: 12 }.grants(&mixed));
    assert!(!EarlyReleasePolicy::Never.grants(&doubles));
}

#[test]
fn grant_without_escrow_still_counts_the_round() {
    let mut b = book(EarlyReleasePolicy::Doubles);
    assert_eq!(deposit(&mut b, &Deposit::new(user(), 1000), 1000, 50), Ok(0));
    open_client(&mut b);
    assert_eq!(request_randomness(&mut b, &user(), &vrf_key()), Ok(0));
    assert!(withdraw(&mut b, &withdraw_ctx(60, NOW)).is_ok());
    let outcome = consume_randomness(&mut b, &consume_ctx(), fulfillment(5, 11)).unwrap();
    assert!(outcome.early_release);
    assert!(b.escrows.is_empty());
    assert_eq!(b.clients[0].roll_count, 1);
}
