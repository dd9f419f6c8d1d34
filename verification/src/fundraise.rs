//! The fundraise window: accepting contributions while it is open, and the
//! one-way transition that closes it.

use vstd::prelude::*;
use vstd::arithmetic::div_mod::{lemma_div_is_ordered, lemma_div_multiples_vanish};
use vstd::arithmetic::mul::{lemma_mul_inequality, lemma_mul_is_distributive_add_other_way};
use crate::errors::DaoError;
use crate::state::{contains_id, DaoState, Treasury};

verus! {

/// Whether `contributor` may contribute at all: the allowlist is empty
/// (unrestricted) or names the contributor.
pub open spec fn allowlist_admits(s: DaoState, contributor: u64) -> bool {
    s.allowlisted_addresses@.len() == 0 || s.allowlisted_addresses@.contains(contributor)
}

/// The exact outcome of a contribution attempt, checked in order: the window
/// must be open, the contributor admitted, the amount positive, every update
/// free of overflow, and the treasury able to issue the tokens. On success
/// the value is the token units issued: `amount * token_price_lamports`.
pub open spec fn contribute_outcome(
    s: DaoState,
    t: Treasury,
    now: i64,
    contributor: u64,
    amount: u64,
) -> Result<u64, DaoError> {
    if s.fundraise_ended || now > s.fundraise_end_ts {
        Err(DaoError::FundraiseEnded)
    } else if !allowlist_admits(s, contributor) {
        Err(DaoError::NotAllowlisted)
    } else if amount == 0 {
        Err(DaoError::InvalidContributionAmount)
    } else if amount * s.token_price_lamports > u64::MAX {
        Err(DaoError::InvalidContributionAmount)
    } else if t.balance + amount > u64::MAX {
        Err(DaoError::InvalidContributionAmount)
    } else if s.total_contributions + amount > u64::MAX {
        Err(DaoError::InvalidContributionAmount)
    } else if s.total_contributors + 1 > u32::MAX {
        Err(DaoError::InvalidContributionAmount)
    } else if amount * s.token_price_lamports > t.token_reserve {
        Err(DaoError::InsufficientBalance)
    } else {
        Ok((amount * s.token_price_lamports) as u64)
    }
}

/// The state after an accepted contribution: the running totals advance,
/// every other field is untouched.
pub open spec fn contribute_next_state(s: DaoState, amount: u64) -> DaoState {
    DaoState {
        total_contributions: (s.total_contributions + amount) as u64,
        total_contributors: (s.total_contributors + 1) as u32,
        ..s
    }
}

/// The treasury after an accepted contribution: the value comes in, the
/// issued tokens leave the reserve, the outstanding supply is unchanged.
pub open spec fn contribute_next_treasury(t: Treasury, amount: u64, tokens: u64) -> Treasury {
    Treasury {
        balance: (t.balance + amount) as u64,
        token_reserve: (t.token_reserve - tokens) as u64,
        supply: t.supply,
    }
}

/// Accept a contribution of `amount` base-currency units from `contributor`
/// at time `now`, or refuse it with no state change. The hosting platform
/// moves the value and the tokens; this records the decision and the
/// accounting.
pub fn contribute(
    state: &mut DaoState,
    treasury: &mut Treasury,
    now: i64,
    contributor: u64,
    amount: u64,
) -> (r: Result<u64, DaoError>)
    ensures
        r == contribute_outcome(*old(state), *old(treasury), now, contributor, amount),
        r matches Ok(tokens) ==> *final(state) == contribute_next_state(*old(state), amount)
            && *final(treasury) == contribute_next_treasury(*old(treasury), amount, tokens),
        r is Err ==> *final(state) == *old(state) && *final(treasury) == *old(treasury),
        final(state).fundraise_ended == old(state).fundraise_ended,
        old(state).wf() ==> final(state).wf(),
        old(treasury).wf() ==> final(treasury).wf(),
{
    if state.fundraise_ended || now > state.fundraise_end_ts {
        return Err(DaoError::FundraiseEnded);
    }
    if state.allowlisted_addresses.len() > 0 && !contains_id(&state.allowlisted_addresses, contributor) {
        return Err(DaoError::NotAllowlisted);
    }
    if amount == 0 {
        return Err(DaoError::InvalidContributionAmount);
    }
    let tokens = match amount.checked_mul(state.token_price_lamports) {
        Some(t) => t,
        None => {
            return Err(DaoError::InvalidContributionAmount);
        },
    };
    let new_balance = match treasury.balance.checked_add(amount) {
        Some(b) => b,
        None => {
            return Err(DaoError::InvalidContributionAmount);
        },
    };
    let new_total = match state.total_contributions.checked_add(amount) {
        Some(t) => t,
        None => {
            return Err(DaoError::InvalidContributionAmount);
        },
    };
    let new_count = match state.total_contributors.checked_add(1) {
        Some(c) => c,
        None => {
            return Err(DaoError::InvalidContributionAmount);
        },
    };
    if tokens > treasury.token_reserve {
        return Err(DaoError::InsufficientBalance);
    }
    treasury.balance = new_balance;
    treasury.token_reserve = treasury.token_reserve - tokens;
    state.total_contributions = new_total;
    state.total_contributors = new_count;
    Ok(tokens)
}

/// The sum of the amounts in a sequence of contribution events, each event
/// being `(now, contributor, amount)`.
pub open spec fn sum_contributed(events: Seq<(i64, u64, u64)>) -> int
    decreases events.len(),
{
    if events.len() == 0 {
        0
    } else {
        events[0].2 + sum_contributed(events.subrange(1, events.len() as int))
    }
}

/// Whether every contribution event in `events`, applied in order, is
/// accepted.
pub open spec fn contributions_accepted(
    s: DaoState,
    t: Treasury,
    events: Seq<(i64, u64, u64)>,
) -> bool
    decreases events.len(),
{
    if events.len() == 0 {
        true
    } else {
        let e = events[0];
        &&& contribute_outcome(s, t, e.0, e.1, e.2) is Ok
        &&& contributions_accepted(
            contribute_next_state(s, e.2),
            contribute_next_treasury(t, e.2, (e.2 * s.token_price_lamports) as u64),
            events.subrange(1, events.len() as int),
        )
    }
}

/// The state and treasury after a sequence of accepted contributions.
pub open spec fn after_contributions(
    s: DaoState,
    t: Treasury,
    events: Seq<(i64, u64, u64)>,
) -> (DaoState, Treasury)
    decreases events.len(),
{
    if events.len() == 0 {
        (s, t)
    } else {
        let e = events[0];
        after_contributions(
            contribute_next_state(s, e.2),
            contribute_next_treasury(t, e.2, (e.2 * s.token_price_lamports) as u64),
            events.subrange(1, events.len() as int),
        )
    }
}

/// Contribution accounting adds up: after any number of accepted
/// contributions, the cumulative total equals the prior total plus the sum
/// of the accepted amounts, the contribution count advances by the number
/// of events, the treasury gains exactly the contributed value, and the
/// tokens issued out of the reserve equal the contributed sum times the
/// token price. The outstanding supply is untouched.
pub proof fn lemma_contribution_totals(s: DaoState, t: Treasury, events: Seq<(i64, u64, u64)>)
    requires
        contributions_accepted(s, t, events),
    ensures
        ({
            let (s2, t2) = after_contributions(s, t, events);
            &&& s2.total_contributions == s.total_contributions + sum_contributed(events)
            &&& s2.total_contributors == s.total_contributors + events.len()
            &&& s2.token_price_lamports == s.token_price_lamports
            &&& t2.balance == t.balance + sum_contributed(events)
            &&& t.token_reserve - t2.token_reserve == sum_contributed(events)
                * s.token_price_lamports
            &&& t2.supply == t.supply
        }),
    decreases events.len(),
{
    if events.len() > 0 {
        let e = events[0];
        let s1 = contribute_next_state(s, e.2);
        let t1 = contribute_next_treasury(t, e.2, (e.2 * s.token_price_lamports) as u64);
        let rest = events.subrange(1, events.len() as int);
        lemma_contribution_totals(s1, t1, rest);
        lemma_mul_is_distributive_add_other_way(
            s.token_price_lamports as int,
            e.2 as int,
            sum_contributed(rest),
        );
    }
}

/// What the close operation reports: how the raised value is allocated,
/// ninety percent to longer-term investment and ten percent to market
/// liquidity, each rounded down.
pub struct CloseOutcome {
    pub defi_allocation: u64,
    pub amm_allocation: u64,
}

/// Ninety percent of the balance, rounded down.
pub open spec fn defi_allocation_of(balance: u64) -> int {
    balance * 90 / 100
}

/// Ten percent of the balance, rounded down.
pub open spec fn amm_allocation_of(balance: u64) -> int {
    balance * 10 / 100
}

/// Whether a close attempt at `now` by `caller` is accepted: the deadline
/// must have passed, unless the caller is the controlling authority, and the
/// fundraise must not already be closed.
pub open spec fn close_check(s: DaoState, now: i64, caller: u64) -> Result<(), DaoError> {
    if !(now > s.fundraise_end_ts || caller == s.authority) {
        Err(DaoError::FundraiseNotEnded)
    } else if s.fundraise_ended {
        Err(DaoError::FundraiseEnded)
    } else {
        Ok(())
    }
}

/// A scaled-down share of a balance never exceeds the balance:
/// `balance * num / den <= balance` whenever `num <= den`.
pub proof fn lemma_scaled_share_le(balance: int, num: int, den: int)
    requires
        0 <= balance,
        0 <= num <= den,
        0 < den,
    ensures
        0 <= balance * num / den <= balance,
{
    lemma_mul_inequality(0, num, balance);
    lemma_mul_inequality(num, den, balance);
    lemma_div_is_ordered(0, balance * num, den);
    lemma_div_is_ordered(balance * num, balance * den, den);
    lemma_div_multiples_vanish(balance, den);
}

/// Close the fundraise: a one-way transition, permitted once the deadline
/// has passed or when the controlling authority asks for it early. Reports
/// the allocation split of the treasury balance; moving the value is the
/// hosting platform's work.
pub fn close_fundraise(
    state: &mut DaoState,
    treasury: &Treasury,
    now: i64,
    caller: u64,
) -> (r: Result<CloseOutcome, DaoError>)
    ensures
        r matches Err(e) ==> close_check(*old(state), now, caller) == Err::<(), DaoError>(e)
            && *final(state) == *old(state),
        r matches Ok(out) ==> close_check(*old(state), now, caller) == Ok::<(), DaoError>(())
            && (*final(state) == DaoState { fundraise_ended: true, ..*old(state) })
            && out.defi_allocation == defi_allocation_of(treasury.balance)
            && out.amm_allocation == amm_allocation_of(treasury.balance),
        old(state).fundraise_ended ==> final(state).fundraise_ended,
        old(state).wf() ==> final(state).wf(),
{
    if !(now > state.fundraise_end_ts || caller == state.authority) {
        return Err(DaoError::FundraiseNotEnded);
    }
    if state.fundraise_ended {
        return Err(DaoError::FundraiseEnded);
    }
    state.fundraise_ended = true;

    let total: u128 = treasury.balance as u128;
    proof {
        lemma_scaled_share_le(treasury.balance as int, 90, 100);
        lemma_scaled_share_le(treasury.balance as int, 10, 100);
    }
    let defi_allocation: u64 = ((total * 90) / 100) as u64;
    let amm_allocation: u64 = ((total * 10) / 100) as u64;
    Ok(CloseOutcome { defi_allocation, amm_allocation })
}

} // verus!
