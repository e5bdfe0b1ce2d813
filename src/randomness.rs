use vstd::prelude::*;
use crate::errors::EscrowErrorCode;
use crate::key::AccountKey;

verus! {

/// The number of faces of each die rolled from a randomness fulfillment.
pub const DICE_TYPE: u8 = 6;

/// Where a randomness client stands in its request/fulfill round.
#[derive(Debug, Clone, Copy, PartialEq, Eq, Structural)]
pub enum RoundPhase {
    /// No request is outstanding.
    Idle,
    /// A request was submitted and its fulfillment has not been consumed.
    AwaitingFulfillment,
}

/// The two dice rolled from one fulfillment.
#[derive(Debug, Clone, Copy, PartialEq, Eq, Structural)]
pub struct DiceOutcome {
    pub die_result_1: u8,
    pub die_result_2: u8,
}

/// The rule that decides whether a roll grants early release.
#[derive(Debug, Clone, Copy, PartialEq, Eq, Structural)]
pub enum EarlyReleasePolicy {
    /// Both dice show the same face.
    Doubles,
    /// The two dice add up to at least `total`.
    SumAtLeast { total: u16 },
    /// No roll ever grants early release.
    Never,
}

/// The record that drives randomness rounds for one escrow and one oracle.
#[derive(Debug, Clone, Copy)]
pub struct VrfClient {
    /// The identity of this record; the oracle's authority must equal it.
    pub key: AccountKey,
    /// The owner of the escrow this client may unlock.
    pub escrow: AccountKey,
    /// The randomness oracle account this client is bound to.
    pub vrf: AccountKey,
    /// The most recent randomness, all zero before the first fulfillment.
    pub result_buffer: [u8; 32],
    pub dice_type: u8,
    pub die_result_1: u8,
    pub die_result_2: u8,
    /// The number of completed rounds.
    pub roll_count: u64,
    /// When the last fulfillment was consumed, 0 if never.
    pub timestamp: i64,
    pub phase: RoundPhase,
}

/// The face a die with `faces` faces shows for one random byte.
pub open spec fn die_face(byte: u8, faces: u8) -> u8
    recommends
        faces > 0,
{
    (1 + byte % faces) as u8
}

/// The dice rolled from a fulfilled buffer: one from each of its first two
/// bytes.
pub open spec fn dice_from(result: Seq<u8>, faces: u8) -> DiceOutcome {
    DiceOutcome { die_result_1: die_face(result[0], faces), die_result_2: die_face(result[1], faces) }
}

/// Whether `policy` grants early release for `outcome`.
pub open spec fn grants(policy: EarlyReleasePolicy, outcome: DiceOutcome) -> bool {
    match policy {
        EarlyReleasePolicy::Doubles => outcome.die_result_1 == outcome.die_result_2,
        EarlyReleasePolicy::SumAtLeast { total } => outcome.die_result_1 + outcome.die_result_2
            >= total,
        EarlyReleasePolicy::Never => false,
    }
}

/// A client as it stands right after creation: bound to `escrow` and `vrf`,
/// six-sided dice, every result zeroed and no request outstanding.
pub open spec fn is_fresh_client(c: VrfClient, key: AccountKey, escrow: AccountKey, vrf: AccountKey) -> bool {
    &&& c.key == key
    &&& c.escrow == escrow
    &&& c.vrf == vrf
    &&& c.result_buffer@ == Seq::new(32, |i: int| 0u8)
    &&& c.dice_type == DICE_TYPE
    &&& c.die_result_1 == 0
    &&& c.die_result_2 == 0
    &&& c.roll_count == 0
    &&& c.timestamp == 0
    &&& c.phase == RoundPhase::Idle
}

/// What submitting a request answers for a client in this state.
pub open spec fn request_result(c: VrfClient) -> Result<u64, EscrowErrorCode> {
    if c.phase == RoundPhase::AwaitingFulfillment {
        Err(EscrowErrorCode::RandomnessRequestOutstanding)
    } else {
        Ok(c.roll_count)
    }
}

/// What consuming a fulfillment answers for a client in this state.
pub open spec fn fulfill_result(c: VrfClient, result: Seq<u8>) -> Result<DiceOutcome, EscrowErrorCode> {
    if c.phase != RoundPhase::AwaitingFulfillment {
        Err(EscrowErrorCode::NoOutstandingRequest)
    } else if c.roll_count == u64::MAX {
        Err(EscrowErrorCode::RoundCountOverflow)
    } else {
        Ok(dice_from(result, c.dice_type))
    }
}

/// The client after a fulfillment was consumed at time `now`.
pub open spec fn after_fulfillment(c: VrfClient, result: [u8; 32], now: i64) -> VrfClient {
    VrfClient {
        result_buffer: result,
        die_result_1: die_face(result@[0], c.dice_type),
        die_result_2: die_face(result@[1], c.dice_type),
        roll_count: (c.roll_count + 1) as u64,
        timestamp: now,
        phase: RoundPhase::Idle,
        ..c
    }
}

/// Rolls one die with `faces` faces from a random byte.
pub fn roll_die(byte: u8, faces: u8) -> (r: u8)
    requires
        faces > 0,
    ensures
        r == die_face(byte, faces),
        1 <= r <= faces,
{
    1 + byte % faces
}

impl EarlyReleasePolicy {
    /// Whether this policy grants early release for `outcome`.
    pub fn grants(&self, outcome: &DiceOutcome) -> (r: bool)
        ensures
            r == grants(*self, *outcome),
    {
        match self {
            EarlyReleasePolicy::Doubles => outcome.die_result_1 == outcome.die_result_2,
            EarlyReleasePolicy::SumAtLeast { total } => (outcome.die_result_1 as u16)
                + (outcome.die_result_2 as u16) >= *total,
            EarlyReleasePolicy::Never => false,
        }
    }
}

impl VrfClient {
    /// The invariant every client keeps: its dice have at least one face.
    pub open spec fn wf(&self) -> bool {
        self.dice_type > 0
    }

    /// A new client bound to `escrow` and `vrf`, with every result zeroed.
    pub fn new(key: AccountKey, escrow: AccountKey, vrf: AccountKey) -> (r: VrfClient)
        ensures
            is_fresh_client(r, key, escrow, vrf),
            r.wf(),
    {
        let r = VrfClient {
            key,
            escrow,
            vrf,
            result_buffer: [0u8; 32],
            dice_type: DICE_TYPE,
            die_result_1: 0,
            die_result_2: 0,
            roll_count: 0,
            timestamp: 0,
            phase: RoundPhase::Idle,
        };
        assert(r.result_buffer@ =~= Seq::new(32, |i: int| 0u8));
        r
    }

    /// Opens a round: only an idle client may submit a request. Returns the
    /// number of the round requested, counting from zero.
    pub fn request(&mut self) -> (r: Result<u64, EscrowErrorCode>)
        ensures
            r == request_result(*old(self)),
            r is Ok ==> *final(self) == (VrfClient { phase: RoundPhase::AwaitingFulfillment, ..*old(self) }),
            r is Err ==> *final(self) == *old(self),
    {
        if self.phase == RoundPhase::AwaitingFulfillment {
            return Err(EscrowErrorCode::RandomnessRequestOutstanding);
        }
        self.phase = RoundPhase::AwaitingFulfillment;
        Ok(self.roll_count)
    }

    /// Closes the outstanding round with the oracle's `result`: stores the
    /// buffer, rolls both dice, counts the round and returns to idle.
    pub fn fulfill(&mut self, result: [u8; 32], now: i64) -> (r: Result<DiceOutcome, EscrowErrorCode>)
        requires
            old(self).wf(),
        ensures
            r == fulfill_result(*old(self), result@),
            r is Ok ==> *final(self) == after_fulfillment(*old(self), result, now),
            r is Err ==> *final(self) == *old(self),
            final(self).wf(),
    {
        if self.phase != RoundPhase::AwaitingFulfillment {
            return Err(EscrowErrorCode::NoOutstandingRequest);
        }
        if self.roll_count == u64::MAX {
            return Err(EscrowErrorCode::RoundCountOverflow);
        }
        let die_result_1 = roll_die(result[0], self.dice_type);
        let die_result_2 = roll_die(result[1], self.dice_type);
        self.result_buffer = result;
        self.die_result_1 = die_result_1;
        self.die_result_2 = die_result_2;
        self.roll_count = self.roll_count + 1;
        self.timestamp = now;
        self.phase = RoundPhase::Idle;
        Ok(DiceOutcome { die_result_1, die_result_2 })
    }
}

} // verus!
