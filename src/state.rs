use vstd::prelude::*;
use crate::key::AccountKey;
use crate::randomness::{EarlyReleasePolicy, VrfClient};

verus! {

/// Funds held for one depositor until they may be released.
#[derive(Debug, Clone, Copy, PartialEq, Eq, Structural)]
pub struct Escrow {
    /// The depositor: the only identity that may withdraw.
    pub owner: AccountKey,
    /// The amount held, positive while the escrow exists.
    pub balance: u64,
    /// The price the feed must reach for a standard release.
    pub unlock_threshold: u64,
    /// Set by a favourable randomness round; never cleared.
    pub early_release_granted: bool,
}

/// The durable state of the custody: its configuration, the active escrows
/// and the randomness clients.
pub struct EscrowBook {
    /// The price feed account that withdrawals must read.
    pub price_feed: AccountKey,
    /// The rule that turns a dice roll into early release.
    pub policy: EarlyReleasePolicy,
    pub escrows: Vec<Escrow>,
    pub clients: Vec<VrfClient>,
}

/// An escrow as a successful deposit creates it.
pub open spec fn new_escrow(owner: AccountKey, balance: u64, unlock_threshold: u64) -> Escrow {
    Escrow { owner, balance, unlock_threshold, early_release_granted: false }
}

/// `i` is the place of `owner`'s escrow.
pub open spec fn escrow_at(s: Seq<Escrow>, owner: AccountKey, i: int) -> bool {
    0 <= i < s.len() && s[i].owner == owner
}

/// `owner` has an active escrow.
pub open spec fn holds_escrow(s: Seq<Escrow>, owner: AccountKey) -> bool {
    exists|i: int| escrow_at(s, owner, i)
}

/// At most one escrow per owner, each holding a positive balance.
pub open spec fn escrows_wf(s: Seq<Escrow>) -> bool {
    &&& forall|i: int, j: int|
        0 <= i < s.len() && 0 <= j < s.len() && s[i].owner == s[j].owner ==> i == j
    &&& forall|i: int| 0 <= i < s.len() ==> s[i].balance > 0
}

/// `i` is the place of the client bound to `escrow` and `vrf`.
pub open spec fn client_at(s: Seq<VrfClient>, escrow: AccountKey, vrf: AccountKey, i: int) -> bool {
    0 <= i < s.len() && s[i].escrow == escrow && s[i].vrf == vrf
}

/// A client bound to `escrow` and `vrf` exists.
pub open spec fn holds_client(s: Seq<VrfClient>, escrow: AccountKey, vrf: AccountKey) -> bool {
    exists|i: int| client_at(s, escrow, vrf, i)
}

/// At most one client per escrow and oracle, each well formed.
pub open spec fn clients_wf(s: Seq<VrfClient>) -> bool {
    &&& forall|i: int, j: int|
        0 <= i < s.len() && 0 <= j < s.len() && s[i].escrow == s[j].escrow && s[i].vrf == s[j].vrf
            ==> i == j
    &&& forall|i: int| 0 <= i < s.len() ==> s[i].wf()
}

/// Whether `s` holds at most one escrow per owner, each with a positive
/// balance.
pub fn escrows_are_wf(s: &Vec<Escrow>) -> (r: bool)
    ensures
        r == escrows_wf(s@),
{
    let n = s.len();
    let mut i: usize = 0;
    while i < n
        invariant
            n == s@.len(),
            i <= n,
            forall|a: int| 0 <= a < i ==> s@[a].balance > 0,
            forall|a: int, b: int|
                0 <= a < i && 0 <= b < n && s@[a].owner == s@[b].owner ==> a == b,
        decreases n - i,
    {
        if s[i].balance == 0 {
            return false;
        }
        let mut j: usize = 0;
        while j < n
            invariant
                n == s@.len(),
                i < n,
                j <= n,
                forall|b: int| 0 <= b < j && s@[i as int].owner == s@[b].owner ==> b == i,
            decreases n - j,
        {
            if j != i && s[j].owner == s[i].owner {
                return false;
            }
            j = j + 1;
        }
        i = i + 1;
    }
    true
}

/// Whether `s` holds at most one client per escrow and oracle, each well
/// formed.
pub fn clients_are_wf(s: &Vec<VrfClient>) -> (r: bool)
    ensures
        r == clients_wf(s@),
{
    let n = s.len();
    let mut i: usize = 0;
    while i < n
        invariant
            n == s@.len(),
            i <= n,
            forall|a: int| 0 <= a < i ==> s@[a].wf(),
            forall|a: int, b: int|
                0 <= a < i && 0 <= b < n && s@[a].escrow == s@[b].escrow && s@[a].vrf == s@[b].vrf
                    ==> a == b,
        decreases n - i,
    {
        if s[i].dice_type == 0 {
            return false;
        }
        let mut j: usize = 0;
        while j < n
            invariant
                n == s@.len(),
                i < n,
                j <= n,
                forall|b: int|
                    0 <= b < j && s@[i as int].escrow == s@[b].escrow && s@[i as int].vrf == s@[b].vrf
                        ==> b == i,
            decreases n - j,
        {
            if j != i && s[j].escrow == s[i].escrow && s[j].vrf == s[i].vrf {
                return false;
            }
            j = j + 1;
        }
        i = i + 1;
    }
    true
}

impl EscrowBook {
    pub open spec fn wf(&self) -> bool {
        escrows_wf(self.escrows@) && clients_wf(self.clients@)
    }

    /// An empty custody that reads `price_feed` and applies `policy`.
    pub fn new(price_feed: AccountKey, policy: EarlyReleasePolicy) -> (r: EscrowBook)
        ensures
            r.wf(),
            r.price_feed == price_feed,
            r.policy == policy,
            r.escrows@.len() == 0,
            r.clients@.len() == 0,
    {
        EscrowBook { price_feed, policy, escrows: Vec::new(), clients: Vec::new() }
    }

    /// Whether this custody keeps its invariant: one escrow per owner, each
    /// funded, and one well-formed client per escrow and oracle.
    pub fn is_well_formed(&self) -> (r: bool)
        ensures
            r == self.wf(),
    {
        escrows_are_wf(&self.escrows) && clients_are_wf(&self.clients)
    }

    /// The place of `owner`'s escrow, if there is one.
    pub fn find_escrow(&self, owner: &AccountKey) -> (r: Option<usize>)
        ensures
            match r {
                Some(i) => escrow_at(self.escrows@, *owner, i as int),
                None => !holds_escrow(self.escrows@, *owner),
            },
    {
        let mut i: usize = 0;
        while i < self.escrows.len()
            invariant
                0 <= i <= self.escrows@.len(),
                forall|k: int| 0 <= k < i ==> self.escrows@[k].owner != *owner,
            decreases self.escrows@.len() - i,
        {
            if self.escrows[i].owner == *owner {
                return Some(i);
            }
            i = i + 1;
        }
        None
    }

    /// The place of the client bound to `escrow` and `vrf`, if there is one.
    pub fn find_client(&self, escrow: &AccountKey, vrf: &AccountKey) -> (r: Option<usize>)
        ensures
            match r {
                Some(i) => client_at(self.clients@, *escrow, *vrf, i as int),
                None => !holds_client(self.clients@, *escrow, *vrf),
            },
    {
        let mut i: usize = 0;
        while i < self.clients.len()
            invariant
                0 <= i <= self.clients@.len(),
                forall|k: int|
                    0 <= k < i ==> !(self.clients@[k].escrow == *escrow && self.clients@[k].vrf == *vrf),
            decreases self.clients@.len() - i,
        {
            if self.clients[i].escrow == *escrow && self.clients[i].vrf == *vrf {
                return Some(i);
            }
            i = i + 1;
        }
        None
    }
}

} // verus!
