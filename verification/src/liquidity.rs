//! The liquidity time-lock: a logical commitment flag over treasury-derived
//! value. No value moves here; locking and withdrawing only set and clear
//! the flag, under the controlling authority and the deadline.

use vstd::prelude::*;
use crate::errors::DaoError;
use crate::state::DaoState;

verus! {

/// Whether a lock attempt by `caller` is accepted: only the controlling
/// authority may lock, and only while nothing is locked.
pub open spec fn lock_check(s: DaoState, caller: u64) -> Result<(), DaoError> {
    if caller != s.authority {
        Err(DaoError::Unauthorized)
    } else if s.liquidity_locked {
        Err(DaoError::LiquidityAlreadyLocked)
    } else {
        Ok(())
    }
}

/// Time-lock the committed liquidity until `lock_end_ts`. Requires the
/// prior state unlocked; the reverse transition is `withdraw_locked_liquidity`
/// after the deadline.
pub fn lock_liquidity(state: &mut DaoState, caller: u64, lock_end_ts: i64) -> (r: Result<
    (),
    DaoError,
>)
    ensures
        r == lock_check(*old(state), caller),
        r is Ok ==> *final(state) == (DaoState {
            liquidity_locked: true,
            lock_end_ts: lock_end_ts,
            ..*old(state)
        }),
        r is Err ==> *final(state) == *old(state),
        final(state).liquidity_locked == (r is Ok || old(state).liquidity_locked),
        final(state).fundraise_ended == old(state).fundraise_ended,
        old(state).wf() ==> final(state).wf(),
{
    if caller != state.authority {
        return Err(DaoError::Unauthorized);
    }
    if state.liquidity_locked {
        return Err(DaoError::LiquidityAlreadyLocked);
    }
    state.liquidity_locked = true;
    state.lock_end_ts = lock_end_ts;
    Ok(())
}

/// Whether a withdrawal attempt by `caller` at `now` is accepted: only the
/// controlling authority, only while locked, and only once the deadline has
/// passed.
pub open spec fn withdraw_check(s: DaoState, caller: u64, now: i64) -> Result<(), DaoError> {
    if caller != s.authority {
        Err(DaoError::Unauthorized)
    } else if !s.liquidity_locked {
        Err(DaoError::LiquidityNotLocked)
    } else if now < s.lock_end_ts {
        Err(DaoError::LiquidityStillLocked)
    } else {
        Ok(())
    }
}

/// Release the liquidity lock once `now` has reached the deadline. Requires
/// the prior state locked.
pub fn withdraw_locked_liquidity(state: &mut DaoState, caller: u64, now: i64) -> (r: Result<
    (),
    DaoError,
>)
    ensures
        r == withdraw_check(*old(state), caller, now),
        r is Ok ==> *final(state) == (DaoState { liquidity_locked: false, ..*old(state) }),
        r is Err ==> *final(state) == *old(state),
        final(state).liquidity_locked == (!(r is Ok) && old(state).liquidity_locked),
        final(state).fundraise_ended == old(state).fundraise_ended,
        old(state).wf() ==> final(state).wf(),
{
    if caller != state.authority {
        return Err(DaoError::Unauthorized);
    }
    if !state.liquidity_locked {
        return Err(DaoError::LiquidityNotLocked);
    }
    if now < state.lock_end_ts {
        return Err(DaoError::LiquidityStillLocked);
    }
    state.liquidity_locked = false;
    Ok(())
}

} // verus!
