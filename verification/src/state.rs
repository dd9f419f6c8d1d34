//! The persisted records: the fundraise entity's state and the treasury
//! ledger it reads and writes.

use vstd::prelude::*;

verus! {

/// Upper bound on the allowlist length.
pub const MAX_ALLOWLIST: usize = 100;

/// Upper bound, in characters, on the entity's name and symbol.
pub const MAX_NAME_LEN: usize = 32;

/// The fundraise entity's record: identity, pricing, lifecycle flags and
/// cumulative accounting. Created once at initialization and mutated by the
/// operations for the rest of the entity's life.
///
/// Identities (contributors, the controlling authority) are plain numeric
/// account identifiers; the hosting platform authenticates callers before an
/// operation runs and hands their identifier in.
pub struct DaoState {
    pub token_name: String,
    pub token_symbol: String,
    /// Token units minted at initialization.
    pub total_supply: u64,
    /// Deadline after which contributions are rejected.
    pub fundraise_end_ts: i64,
    /// Token units issued per unit of base currency contributed.
    pub token_price_lamports: u64,
    /// Identities permitted to contribute; empty means unrestricted.
    pub allowlisted_addresses: Vec<u64>,
    /// The controlling authority: may close the fundraise early and operate
    /// the liquidity lock.
    pub authority: u64,
    /// Monotonic: set exactly once by the close operation, never reset.
    pub fundraise_ended: bool,
    /// Cumulative base currency accepted.
    pub total_contributions: u64,
    /// Count of accepted contribution operations.
    pub total_contributors: u32,
    /// Whether a portion of treasury value is currently time-locked.
    pub liquidity_locked: bool,
    /// Deadline after which locked liquidity becomes withdrawable.
    pub lock_end_ts: i64,
}

impl DaoState {
    /// The record's size bounds: bounded name and symbol, bounded allowlist.
    pub open spec fn wf(self) -> bool {
        &&& self.token_name@.len() <= MAX_NAME_LEN
        &&& self.token_symbol@.len() <= MAX_NAME_LEN
        &&& self.allowlisted_addresses@.len() <= MAX_ALLOWLIST
    }
}

/// The treasury ledger: the pooled base currency, the tokens the treasury
/// still holds for issuance, and the total token units outstanding.
///
/// The hosting platform's token primitive is the system of record; this is
/// its verified accounting image. `supply` counts every token unit in
/// existence (minted minus burned); `token_reserve` is the part of it still
/// sitting in the treasury, so `token_reserve <= supply`.
#[derive(Clone, Copy, Debug, PartialEq, Eq, Structural)]
pub struct Treasury {
    /// Pooled base currency held.
    pub balance: u64,
    /// Token units the treasury still holds for issuance.
    pub token_reserve: u64,
    /// Token units outstanding in total.
    pub supply: u64,
}

impl Treasury {
    pub open spec fn wf(self) -> bool {
        self.token_reserve <= self.supply
    }

    /// Token units outstanding outside the treasury: the most any single
    /// holder can own.
    pub open spec fn circulating(self) -> int {
        self.supply - self.token_reserve
    }
}

/// Whether `x` occurs among the identities in `v`.
pub fn contains_id(v: &Vec<u64>, x: u64) -> (b: bool)
    ensures
        b == v@.contains(x),
{
    let mut i: usize = 0;
    while i < v.len()
        invariant
            i <= v@.len(),
            forall|j: int| 0 <= j < i ==> v@[j] != x,
        decreases v@.len() - i,
    {
        if v[i] == x {
            return true;
        }
        i = i + 1;
    }
    false
}

} // verus!
