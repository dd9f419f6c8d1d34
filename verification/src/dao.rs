//! The governed entity as a whole: its state, its treasury image, and the
//! reentrancy guard. Every mutating entry point acquires the guard first,
//! runs one state transition, and releases the guard on success and failure
//! alike, so a failed operation can never wedge the account.

use vstd::prelude::*;
use crate::errors::DaoError;
use crate::fundraise::{
    close_check, close_fundraise, contribute, contribute_next_state, contribute_next_treasury,
    contribute_outcome, amm_allocation_of, defi_allocation_of, CloseOutcome,
};
use crate::guard::ReentrancyGuard;
use crate::liquidity::{lock_check, lock_liquidity, withdraw_check, withdraw_locked_liquidity};
use crate::redeem::{redeem, redeem_next_treasury, redeem_outcome_value, RedeemOutcome};
use crate::state::{DaoState, Treasury, MAX_ALLOWLIST, MAX_NAME_LEN};

verus! {

/// Everything initialization needs: the entity's identity, the fundraise
/// window and price, the optional allowlist, and the controlling authority
/// (the identity that may close the fundraise early and operate the
/// liquidity lock).
pub struct InitializeDaoParams {
    pub token_name: String,
    pub token_symbol: String,
    pub total_supply: u64,
    pub fundraise_end_ts: i64,
    pub token_price_lamports: u64,
    pub allowlisted_addresses: Vec<u64>,
    pub authority: u64,
}

/// The governed account: fundraise state, treasury accounting, and the
/// per-account reentrancy guard.
pub struct Dao {
    pub guard: ReentrancyGuard,
    pub state: DaoState,
    pub treasury: Treasury,
}

impl Dao {
    pub open spec fn wf(self) -> bool {
        &&& self.state.wf()
        &&& self.treasury.wf()
    }

    /// Create the entity: the fundraise opens, the whole supply is minted
    /// into the treasury, nothing is contributed or locked yet.
    pub fn initialize_dao(params: InitializeDaoParams) -> (dao: Dao)
        requires
            params.token_name@.len() <= MAX_NAME_LEN,
            params.token_symbol@.len() <= MAX_NAME_LEN,
            params.allowlisted_addresses@.len() <= MAX_ALLOWLIST,
        ensures
            dao.wf(),
            !dao.guard.in_progress,
            dao.state.token_name == params.token_name,
            dao.state.token_symbol == params.token_symbol,
            dao.state.total_supply == params.total_supply,
            dao.state.fundraise_end_ts == params.fundraise_end_ts,
            dao.state.token_price_lamports == params.token_price_lamports,
            dao.state.allowlisted_addresses@ == params.allowlisted_addresses@,
            dao.state.authority == params.authority,
            !dao.state.fundraise_ended,
            dao.state.total_contributions == 0,
            dao.state.total_contributors == 0,
            !dao.state.liquidity_locked,
            dao.state.lock_end_ts == 0,
            dao.treasury == (Treasury {
                balance: 0,
                token_reserve: params.total_supply,
                supply: params.total_supply,
            }),
    {
        Dao {
            guard: ReentrancyGuard::new(),
            state: DaoState {
                token_name: params.token_name,
                token_symbol: params.token_symbol,
                total_supply: params.total_supply,
                fundraise_end_ts: params.fundraise_end_ts,
                token_price_lamports: params.token_price_lamports,
                allowlisted_addresses: params.allowlisted_addresses,
                authority: params.authority,
                fundraise_ended: false,
                total_contributions: 0,
                total_contributors: 0,
                liquidity_locked: false,
                lock_end_ts: 0,
            },
            treasury: Treasury {
                balance: 0,
                token_reserve: params.total_supply,
                supply: params.total_supply,
            },
        }
    }

    /// Guarded contribution. A nested call while an operation is in
    /// progress fails with `ReentrancyAttempt` and changes nothing; the
    /// guard is always clear when a top-level call returns. A contribution
    /// after the fundraise has ended always fails.
    pub fn contribute_funds(&mut self, now: i64, contributor: u64, amount: u64) -> (r: Result<
        u64,
        DaoError,
    >)
        ensures
            old(self).guard.in_progress ==> r == Err::<u64, DaoError>(DaoError::ReentrancyAttempt)
                && *final(self) == *old(self),
            !old(self).guard.in_progress ==> !final(self).guard.in_progress
                && r == contribute_outcome(old(self).state, old(self).treasury, now, contributor, amount)
                && (r matches Ok(tokens) ==> final(self).state == contribute_next_state(
                    old(self).state, amount)
                    && final(self).treasury == contribute_next_treasury(
                    old(self).treasury, amount, tokens))
                && (r is Err ==> final(self).state == old(self).state
                    && final(self).treasury == old(self).treasury),
            old(self).state.fundraise_ended ==> final(self).state.fundraise_ended,
            !old(self).guard.in_progress && old(self).state.fundraise_ended ==> r == Err::<
                u64,
                DaoError,
            >(DaoError::FundraiseEnded),
            !old(self).guard.in_progress ==> (final(self).state, final(self).treasury)
                == dao_step(old(self).state, old(self).treasury, (DaoOp::Contribute {
                now,
                contributor,
                amount,
            })),
            old(self).wf() ==> final(self).wf(),
    {
        match self.guard.start() {
            Err(e) => {
                return Err(e);
            },
            Ok(()) => {},
        }
        let r = contribute(&mut self.state, &mut self.treasury, now, contributor, amount);
        self.guard.complete();
        r
    }

    /// Guarded close: the one-way `Open` to `Closed` transition.
    pub fn close_fundraise(&mut self, now: i64, caller: u64) -> (r: Result<CloseOutcome, DaoError>)
        ensures
            old(self).guard.in_progress ==> r == Err::<CloseOutcome, DaoError>(
                DaoError::ReentrancyAttempt) && *final(self) == *old(self),
            !old(self).guard.in_progress ==> !final(self).guard.in_progress
                && final(self).treasury == old(self).treasury
                && (r matches Err(e) ==> close_check(old(self).state, now, caller) == Err::<
                    (),
                    DaoError,
                >(e) && final(self).state == old(self).state)
                && (r matches Ok(out) ==> close_check(old(self).state, now, caller) == Ok::<
                    (),
                    DaoError,
                >(()) && final(self).state == (DaoState {
                    fundraise_ended: true,
                    ..old(self).state
                }) && out.defi_allocation == defi_allocation_of(old(self).treasury.balance)
                    && out.amm_allocation == amm_allocation_of(old(self).treasury.balance)),
            !old(self).guard.in_progress ==> (final(self).state, final(self).treasury)
                == dao_step(old(self).state, old(self).treasury, (DaoOp::CloseFundraise {
                now,
                caller,
            })),
            old(self).state.fundraise_ended ==> final(self).state.fundraise_ended,
            old(self).wf() ==> final(self).wf(),
    {
        match self.guard.start() {
            Err(e) => {
                return Err(e);
            },
            Ok(()) => {},
        }
        let r = close_fundraise(&mut self.state, &self.treasury, now, caller);
        self.guard.complete();
        r
    }

    /// Guarded redemption. `holder_balance` is the caller's token balance
    /// as the platform's ledger records it; no holder owns more than the
    /// circulating supply.
    pub fn redeem_tokens(&mut self, holder_balance: u64, amount: u64) -> (r: Result<
        RedeemOutcome,
        DaoError,
    >)
        requires
            old(self).treasury.wf(),
            holder_balance <= old(self).treasury.circulating(),
        ensures
            old(self).guard.in_progress ==> r == Err::<RedeemOutcome, DaoError>(
                DaoError::ReentrancyAttempt) && *final(self) == *old(self),
            !old(self).guard.in_progress ==> !final(self).guard.in_progress
                && final(self).state == old(self).state
                && (r matches Err(e) ==> Err::<u64, DaoError>(e) == redeem_outcome_value(
                    old(self).state, old(self).treasury, holder_balance, amount)
                    && final(self).treasury == old(self).treasury)
                && (r matches Ok(out) ==> Ok::<u64, DaoError>(out.redemption_amount)
                    == redeem_outcome_value(
                    old(self).state, old(self).treasury, holder_balance, amount)
                    && out.holder_balance_after == holder_balance - amount
                    && final(self).treasury == redeem_next_treasury(old(self).treasury, amount)),
            !old(self).guard.in_progress ==> (final(self).state, final(self).treasury)
                == dao_step(old(self).state, old(self).treasury, (DaoOp::RedeemTokens {
                holder_balance,
                amount,
            })),
            old(self).state.fundraise_ended ==> final(self).state.fundraise_ended,
            final(self).treasury.balance <= old(self).treasury.balance,
            old(self).wf() ==> final(self).wf(),
    {
        match self.guard.start() {
            Err(e) => {
                return Err(e);
            },
            Ok(()) => {},
        }
        let r = redeem(&self.state, &mut self.treasury, holder_balance, amount);
        self.guard.complete();
        r
    }

    /// Guarded liquidity lock.
    pub fn lock_liquidity(&mut self, caller: u64, lock_end_ts: i64) -> (r: Result<(), DaoError>)
        ensures
            old(self).guard.in_progress ==> r == Err::<(), DaoError>(DaoError::ReentrancyAttempt)
                && *final(self) == *old(self),
            !old(self).guard.in_progress ==> !final(self).guard.in_progress
                && final(self).treasury == old(self).treasury
                && r == lock_check(old(self).state, caller)
                && (r is Ok ==> final(self).state == (DaoState {
                    liquidity_locked: true,
                    lock_end_ts: lock_end_ts,
                    ..old(self).state
                }))
                && (r is Err ==> final(self).state == old(self).state)
                && final(self).state.liquidity_locked == (r is Ok
                    || old(self).state.liquidity_locked),
            !old(self).guard.in_progress ==> (final(self).state, final(self).treasury)
                == dao_step(old(self).state, old(self).treasury, (DaoOp::LockLiquidity {
                caller,
                lock_end_ts,
            })),
            old(self).state.fundraise_ended ==> final(self).state.fundraise_ended,
            old(self).wf() ==> final(self).wf(),
    {
        match self.guard.start() {
            Err(e) => {
                return Err(e);
            },
            Ok(()) => {},
        }
        let r = lock_liquidity(&mut self.state, caller, lock_end_ts);
        self.guard.complete();
        r
    }

    /// Guarded liquidity withdrawal after the lock deadline.
    pub fn withdraw_locked_liquidity(&mut self, caller: u64, now: i64) -> (r: Result<(), DaoError>)
        ensures
            old(self).guard.in_progress ==> r == Err::<(), DaoError>(DaoError::ReentrancyAttempt)
                && *final(self) == *old(self),
            !old(self).guard.in_progress ==> !final(self).guard.in_progress
                && final(self).treasury == old(self).treasury
                && r == withdraw_check(old(self).state, caller, now)
                && (r is Ok ==> final(self).state == (DaoState {
                    liquidity_locked: false,
                    ..old(self).state
                }))
                && (r is Err ==> final(self).state == old(self).state)
                && final(self).state.liquidity_locked == (!(r is Ok)
                    && old(self).state.liquidity_locked),
            !old(self).guard.in_progress ==> (final(self).state, final(self).treasury)
                == dao_step(old(self).state, old(self).treasury, (DaoOp::WithdrawLockedLiquidity {
                caller,
                now,
            })),
            old(self).state.fundraise_ended ==> final(self).state.fundraise_ended,
            old(self).wf() ==> final(self).wf(),
    {
        match self.guard.start() {
            Err(e) => {
                return Err(e);
            },
            Ok(()) => {},
        }
        let r = withdraw_locked_liquidity(&mut self.state, caller, now);
        self.guard.complete();
        r
    }
}

/// One request against the governed account, with the externally supplied
/// facts it carries.
pub enum DaoOp {
    Contribute { now: i64, contributor: u64, amount: u64 },
    CloseFundraise { now: i64, caller: u64 },
    RedeemTokens { holder_balance: u64, amount: u64 },
    LockLiquidity { caller: u64, lock_end_ts: i64 },
    WithdrawLockedLiquidity { caller: u64, now: i64 },
}

/// The state and treasury after one operation, accepted or refused: a
/// refused operation changes nothing. Each arm is the very transition the
/// corresponding entry point's contract pins down.
pub open spec fn dao_step(s: DaoState, t: Treasury, op: DaoOp) -> (DaoState, Treasury) {
    match op {
        DaoOp::Contribute { now, contributor, amount } => {
            if contribute_outcome(s, t, now, contributor, amount) is Ok {
                (
                    contribute_next_state(s, amount),
                    contribute_next_treasury(t, amount, (amount * s.token_price_lamports) as u64),
                )
            } else {
                (s, t)
            }
        },
        DaoOp::CloseFundraise { now, caller } => {
            if close_check(s, now, caller) is Ok {
                (DaoState { fundraise_ended: true, ..s }, t)
            } else {
                (s, t)
            }
        },
        DaoOp::RedeemTokens { holder_balance, amount } => {
            if redeem_outcome_value(s, t, holder_balance, amount) is Ok {
                (s, redeem_next_treasury(t, amount))
            } else {
                (s, t)
            }
        },
        DaoOp::LockLiquidity { caller, lock_end_ts } => {
            if lock_check(s, caller) is Ok {
                (DaoState { liquidity_locked: true, lock_end_ts: lock_end_ts, ..s }, t)
            } else {
                (s, t)
            }
        },
        DaoOp::WithdrawLockedLiquidity { caller, now } => {
            if withdraw_check(s, caller, now) is Ok {
                (DaoState { liquidity_locked: false, ..s }, t)
            } else {
                (s, t)
            }
        },
    }
}

/// The state and treasury after a sequence of operations, each applied to
/// what the previous one left.
pub open spec fn dao_steps(s: DaoState, t: Treasury, ops: Seq<DaoOp>) -> (DaoState, Treasury)
    decreases ops.len(),
{
    if ops.len() == 0 {
        (s, t)
    } else {
        let (s1, t1) = dao_step(s, t, ops[0]);
        dao_steps(s1, t1, ops.subrange(1, ops.len() as int))
    }
}

/// The closed state is absorbing: once `fundraise_ended` is true, no
/// sequence of operations, accepted or refused, ever resets it.
pub proof fn lemma_fundraise_ended_monotonic(s: DaoState, t: Treasury, ops: Seq<DaoOp>)
    requires
        s.fundraise_ended,
    ensures
        dao_steps(s, t, ops).0.fundraise_ended,
    decreases ops.len(),
{
    if ops.len() > 0 {
        let (s1, t1) = dao_step(s, t, ops[0]);
        lemma_fundraise_ended_monotonic(s1, t1, ops.subrange(1, ops.len() as int));
    }
}

} // verus!
