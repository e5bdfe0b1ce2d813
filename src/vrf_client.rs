use vstd::prelude::*;
use crate::errors::EscrowErrorCode;
use crate::key::AccountKey;
use crate::randomness::{
    after_fulfillment, fulfill_result, grants, is_fresh_client, request_result, DiceOutcome,
    RoundPhase, VrfClient,
};
use crate::state::{
    client_at, clients_wf, escrow_at, holds_client, holds_escrow, Escrow, EscrowBook,
};

verus! {

/// The accounts that creating a randomness client acts on: the escrow's
/// owner, the identity of the new client record, the oracle account and the
/// authority configured on that oracle.
#[derive(Debug, Clone, Copy, PartialEq, Eq, Structural)]
pub struct InitVrfClient {
    pub user: AccountKey,
    pub vrf_state: AccountKey,
    pub vrf: AccountKey,
    pub vrf_authority: AccountKey,
}

/// The accounts a fulfillment arrives with: the owner of the escrow served,
/// the oracle account, the authority it presents, and the time now.
#[derive(Debug, Clone, Copy, PartialEq, Eq, Structural)]
pub struct ConsumeRandomness {
    pub escrow: AccountKey,
    pub vrf: AccountKey,
    pub vrf_authority: AccountKey,
    pub now: i64,
}

/// What a consumed fulfillment rolled, and whether it granted early release.
#[derive(Debug, Clone, Copy, PartialEq, Eq, Structural)]
pub struct RandomnessOutcome {
    pub dice: DiceOutcome,
    pub early_release: bool,
}

/// What creating a randomness client answers.
pub open spec fn init_result(book: EscrowBook, ctx: InitVrfClient) -> Result<(), EscrowErrorCode> {
    if !holds_escrow(book.escrows@, ctx.user) {
        Err(EscrowErrorCode::EscrowNotFound)
    } else if holds_client(book.clients@, ctx.user, ctx.vrf) {
        Err(EscrowErrorCode::VrfClientAlreadyExists)
    } else if ctx.vrf_authority != ctx.vrf_state {
        Err(EscrowErrorCode::InvalidVrfAuthorityError)
    } else {
        Ok(())
    }
}

/// What consuming a fulfillment answers for client `c` under `book`'s policy.
pub open spec fn consume_result(book: EscrowBook, c: VrfClient, ctx: ConsumeRandomness, result: Seq<u8>) -> Result<RandomnessOutcome, EscrowErrorCode> {
    if ctx.vrf_authority != c.key {
        Err(EscrowErrorCode::InvalidVrfAuthorityError)
    } else {
        match fulfill_result(c, result) {
            Ok(dice) => Ok(RandomnessOutcome { dice, early_release: grants(book.policy, dice) }),
            Err(e) => Err(e),
        }
    }
}

/// Escrows after a round that granted early release to `owner`'s escrow.
pub open spec fn granted(s: Seq<Escrow>, owner: AccountKey) -> Seq<Escrow> {
    Seq::new(
        s.len(),
        |k: int|
            if s[k].owner == owner {
                Escrow { early_release_granted: true, ..s[k] }
            } else {
                s[k]
            },
    )
}

impl InitVrfClient {
    pub fn new(user: AccountKey, vrf_state: AccountKey, vrf: AccountKey, vrf_authority: AccountKey) -> (r: InitVrfClient)
        ensures
            r == (InitVrfClient { user, vrf_state, vrf, vrf_authority }),
    {
        InitVrfClient { user, vrf_state, vrf, vrf_authority }
    }
}

impl ConsumeRandomness {
    pub fn new(escrow: AccountKey, vrf: AccountKey, vrf_authority: AccountKey, now: i64) -> (r: ConsumeRandomness)
        ensures
            r == (ConsumeRandomness { escrow, vrf, vrf_authority, now }),
    {
        ConsumeRandomness { escrow, vrf, vrf_authority, now }
    }
}

/// Creates the randomness client of `ctx.user`'s escrow for oracle
/// `ctx.vrf`. The oracle's authority must be the new record itself, so that
/// only that oracle can later fulfil its requests.
pub fn init_vrf_client_handler(book: &mut EscrowBook, ctx: &InitVrfClient) -> (r: Result<(), EscrowErrorCode>)
    requires
        old(book).wf(),
    ensures
        final(book).wf(),
        r == init_result(*old(book), *ctx),
        r is Ok ==> {
            &&& final(book).clients@.len() == old(book).clients@.len() + 1
            &&& final(book).clients@.drop_last() == old(book).clients@
            &&& is_fresh_client(final(book).clients@.last(), ctx.vrf_state, ctx.user, ctx.vrf)
        },
        r is Err ==> final(book).clients@ == old(book).clients@,
        final(book).escrows@ == old(book).escrows@,
        final(book).price_feed == old(book).price_feed,
        final(book).policy == old(book).policy,
{
    if book.find_escrow(&ctx.user).is_none() {
        return Err(EscrowErrorCode::EscrowNotFound);
    }
    if book.find_client(&ctx.user, &ctx.vrf).is_some() {
        return Err(EscrowErrorCode::VrfClientAlreadyExists);
    }
    if !ctx.vrf_authority.same_as(&ctx.vrf_state) {
        return Err(EscrowErrorCode::InvalidVrfAuthorityError);
    }
    let ghost before = book.clients@;
    let client = VrfClient::new(ctx.vrf_state, ctx.user, ctx.vrf);
    book.clients.push(client);
    assert(book.clients@.drop_last() =~= before);
    assert forall|i: int, j: int|
        0 <= i < book.clients@.len() && 0 <= j < book.clients@.len()
            && book.clients@[i].escrow == book.clients@[j].escrow
            && book.clients@[i].vrf == book.clients@[j].vrf implies i == j by {
        if i < before.len() && j == before.len() {
            assert(client_at(before, ctx.user, ctx.vrf, i));
        }
        if j < before.len() && i == before.len() {
            assert(client_at(before, ctx.user, ctx.vrf, j));
        }
    }
    assert(clients_wf(book.clients@));
    Ok(())
}

/// Submits a randomness request for the client of `escrow`'s escrow and
/// oracle `vrf`. A second request while one is outstanding is refused.
/// Returns the number of the round requested. There is no cancellation: a
/// request the oracle never fulfils keeps the client waiting.
pub fn request_randomness(book: &mut EscrowBook, escrow: &AccountKey, vrf: &AccountKey) -> (r: Result<u64, EscrowErrorCode>)
    requires
        old(book).wf(),
    ensures
        final(book).wf(),
        !holds_client(old(book).clients@, *escrow, *vrf) ==> r == Err::<u64, EscrowErrorCode>(
            EscrowErrorCode::VrfClientNotFound,
        ),
        forall|i: int|
            #[trigger] client_at(old(book).clients@, *escrow, *vrf, i) ==> {
                &&& r == request_result(old(book).clients@[i])
                &&& r is Ok ==> final(book).clients@ == old(book).clients@.update(
                    i,
                    VrfClient { phase: RoundPhase::AwaitingFulfillment, ..old(book).clients@[i] },
                )
            },
        r is Err ==> final(book).clients@ == old(book).clients@,
        final(book).escrows@ == old(book).escrows@,
        final(book).price_feed == old(book).price_feed,
        final(book).policy == old(book).policy,
{
    let i = match book.find_client(escrow, vrf) {
        Some(i) => i,
        None => {
            return Err(EscrowErrorCode::VrfClientNotFound);
        },
    };
    let mut client = book.clients[i];
    let round = client.request()?;
    book.clients.set(i, client);
    Ok(round)
}

/// Consumes the oracle's fulfillment `result` for the client of
/// `ctx.escrow`'s escrow and oracle `ctx.vrf`. The presented authority must
/// be the client record, and a request must be outstanding. The round is
/// recorded, and when the policy grants early release the bound escrow, if
/// it is still active, is marked for release.
pub fn consume_randomness(book: &mut EscrowBook, ctx: &ConsumeRandomness, result: [u8; 32]) -> (r: Result<RandomnessOutcome, EscrowErrorCode>)
    requires
        old(book).wf(),
    ensures
        final(book).wf(),
        !holds_client(old(book).clients@, ctx.escrow, ctx.vrf) ==> r == Err::<
            RandomnessOutcome,
            EscrowErrorCode,
        >(EscrowErrorCode::VrfClientNotFound),
        forall|i: int|
            #[trigger] client_at(old(book).clients@, ctx.escrow, ctx.vrf, i) ==> {
                &&& r == consume_result(*old(book), old(book).clients@[i], *ctx, result@)
                &&& r is Ok ==> final(book).clients@ == old(book).clients@.update(
                    i,
                    after_fulfillment(old(book).clients@[i], result, ctx.now),
                )
            },
        r matches Ok(o) ==> final(book).escrows@ == if o.early_release {
            granted(old(book).escrows@, ctx.escrow)
        } else {
            old(book).escrows@
        },
        r is Err ==> final(book).clients@ == old(book).clients@,
        r is Err ==> final(book).escrows@ == old(book).escrows@,
        final(book).price_feed == old(book).price_feed,
        final(book).policy == old(book).policy,
{
    let i = match book.find_client(&ctx.escrow, &ctx.vrf) {
        Some(i) => i,
        None => {
            return Err(EscrowErrorCode::VrfClientNotFound);
        },
    };
    let mut client = book.clients[i];
    if !ctx.vrf_authority.same_as(&client.key) {
        return Err(EscrowErrorCode::InvalidVrfAuthorityError);
    }
    let dice = client.fulfill(result, ctx.now)?;
    book.clients.set(i, client);
    let early_release = book.policy.grants(&dice);
    if early_release {
        let ghost before = book.escrows@;
        match book.find_escrow(&ctx.escrow) {
            Some(j) => {
                let e = book.escrows[j];
                book.escrows.set(j, Escrow { early_release_granted: true, ..e });
                assert forall|k: int| 0 <= k < before.len() implies book.escrows@[k] == (
                if before[k].owner == ctx.escrow {
                    Escrow { early_release_granted: true, ..before[k] }
                } else {
                    before[k]
                }) by {
                    if k != j && before[k].owner == ctx.escrow {
                        assert(escrow_at(before, ctx.escrow, k));
                    }
                }
                assert(book.escrows@ =~= granted(before, ctx.escrow));
            },
            None => {
                assert forall|k: int| 0 <= k < before.len() implies before[k].owner != ctx.escrow by {
                    if before[k].owner == ctx.escrow {
                        assert(escrow_at(before, ctx.escrow, k));
                    }
                }
                assert(book.escrows@ =~= granted(before, ctx.escrow));
            },
        }
    }
    Ok(RandomnessOutcome { dice, early_release })
}

} // verus!
