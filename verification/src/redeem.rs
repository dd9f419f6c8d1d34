//! Redemption after close: converting held tokens back into a proportional
//! share of the treasury, burning the redeemed tokens.

use vstd::prelude::*;
use crate::errors::DaoError;
use vstd::arithmetic::mul::lemma_mul_inequality;
use crate::fundraise::lemma_scaled_share_le;
use crate::state::{DaoState, Treasury};

verus! {

/// The base-currency value a redemption of `amount` tokens pays out of a
/// treasury holding `balance`, when `supply` token units are outstanding:
/// `floor(balance * amount / supply)`. Rounding down means fractional
/// remainders stay in the treasury as dust.
pub open spec fn redemption_value(balance: u64, amount: u64, supply: u64) -> int
    recommends
        supply > 0,
{
    balance * amount / (supply as int)
}

/// A redemption never pays out more than the treasury holds: the payout for
/// `amount <= supply` tokens is between zero and the whole balance.
pub proof fn lemma_redemption_value_le_balance(balance: u64, amount: u64, supply: u64)
    requires
        amount <= supply,
        0 < supply,
    ensures
        0 <= redemption_value(balance, amount, supply) <= balance,
{
    lemma_scaled_share_le(balance as int, amount as int, supply as int);
}

/// The exact outcome of a redemption attempt: the fundraise must be closed,
/// the amount positive and within the holder's balance, and the payout
/// positive. On success the value is the base currency paid out.
pub open spec fn redeem_outcome_value(
    s: DaoState,
    t: Treasury,
    holder_balance: u64,
    amount: u64,
) -> Result<u64, DaoError> {
    if !s.fundraise_ended {
        Err(DaoError::FundraiseNotEnded)
    } else if amount == 0 || amount > holder_balance {
        Err(DaoError::InvalidRedemptionAmount)
    } else if redemption_value(t.balance, amount, t.supply) == 0 {
        Err(DaoError::InsufficientTreasuryFunds)
    } else {
        Ok(redemption_value(t.balance, amount, t.supply) as u64)
    }
}

/// The treasury after an accepted redemption: the payout leaves the balance
/// and the burned tokens leave the outstanding supply.
pub open spec fn redeem_next_treasury(t: Treasury, amount: u64) -> Treasury {
    Treasury {
        balance: (t.balance - redemption_value(t.balance, amount, t.supply)) as u64,
        token_reserve: t.token_reserve,
        supply: (t.supply - amount) as u64,
    }
}

/// The sum of the token amounts in a sequence of redemption events, each
/// event being `(holder_balance, amount)`.
pub open spec fn sum_redeemed(events: Seq<(u64, u64)>) -> int
    decreases events.len(),
{
    if events.len() == 0 {
        0
    } else {
        events[0].1 + sum_redeemed(events.subrange(1, events.len() as int))
    }
}

/// Whether every redemption event in `events`, applied in order against a
/// closed fundraise, is accepted; each holder balance must respect the
/// ledger bound (no holder owns more than the circulating supply).
pub open spec fn redemptions_accepted(s: DaoState, t: Treasury, events: Seq<(u64, u64)>) -> bool
    decreases events.len(),
{
    if events.len() == 0 {
        true
    } else {
        let e = events[0];
        &&& e.0 <= t.circulating()
        &&& redeem_outcome_value(s, t, e.0, e.1) is Ok
        &&& redemptions_accepted(s, redeem_next_treasury(t, e.1), events.subrange(
            1,
            events.len() as int,
        ))
    }
}

/// The treasury after a sequence of accepted redemptions.
pub open spec fn treasury_after_redemptions(
    s: DaoState,
    t: Treasury,
    events: Seq<(u64, u64)>,
) -> Treasury
    decreases events.len(),
{
    if events.len() == 0 {
        t
    } else {
        treasury_after_redemptions(s, redeem_next_treasury(t, events[0].1), events.subrange(
            1,
            events.len() as int,
        ))
    }
}

/// Redemption only drains: after any number of accepted redemptions the
/// treasury balance never exceeds the original one (what remains is the
/// accumulated rounding dust, and as an unsigned balance it is never
/// negative), the redeemed tokens leave the outstanding supply, and the
/// treasury's own token reserve is untouched.
pub proof fn lemma_redemptions_only_drain(s: DaoState, t: Treasury, events: Seq<(u64, u64)>)
    requires
        t.wf(),
        redemptions_accepted(s, t, events),
    ensures
        ({
            let t2 = treasury_after_redemptions(s, t, events);
            &&& t2.balance <= t.balance
            &&& t2.supply == t.supply - sum_redeemed(events)
            &&& t2.token_reserve == t.token_reserve
            &&& t2.wf()
        }),
    decreases events.len(),
{
    if events.len() > 0 {
        let e = events[0];
        lemma_redemption_value_le_balance(t.balance, e.1, t.supply);
        lemma_redemptions_only_drain(s, redeem_next_treasury(t, e.1), events.subrange(
            1,
            events.len() as int,
        ));
    }
}

/// What an accepted redemption reports back to the hosting platform: the
/// base currency to pay the holder, and the holder's token balance after the
/// burn.
pub struct RedeemOutcome {
    pub redemption_amount: u64,
    pub holder_balance_after: u64,
}

/// Redeem `amount` tokens held by a caller whose token balance is
/// `holder_balance`, paying out a proportional share of the treasury and
/// burning the tokens; or refuse with no state change.
///
/// The holder's balance is read from the hosting platform's token ledger,
/// whose accounting guarantees that no holder owns more than the circulating
/// supply (the outstanding units not held by the treasury).
pub fn redeem(
    state: &DaoState,
    treasury: &mut Treasury,
    holder_balance: u64,
    amount: u64,
) -> (r: Result<RedeemOutcome, DaoError>)
    requires
        old(treasury).wf(),
        holder_balance <= old(treasury).circulating(),
    ensures
        final(treasury).wf(),
        final(treasury).balance <= old(treasury).balance,
        r matches Err(e) ==> Err::<u64, DaoError>(e) == redeem_outcome_value(
            *state, *old(treasury), holder_balance, amount)
            && *final(treasury) == *old(treasury),
        r matches Ok(out) ==> Ok::<u64, DaoError>(out.redemption_amount) == redeem_outcome_value(
            *state, *old(treasury), holder_balance, amount)
            && out.holder_balance_after == holder_balance - amount
            && *final(treasury) == redeem_next_treasury(*old(treasury), amount),
{
    if !state.fundraise_ended {
        return Err(DaoError::FundraiseNotEnded);
    }
    if amount == 0 || amount > holder_balance {
        return Err(DaoError::InvalidRedemptionAmount);
    }

    proof {
        lemma_redemption_value_le_balance(treasury.balance, amount, treasury.supply);
        lemma_mul_inequality(amount as int, u64::MAX as int, treasury.balance as int);
    }
    let wide: u128 = (treasury.balance as u128) * (amount as u128);
    let redemption_amount: u64 = (wide / (treasury.supply as u128)) as u64;

    if redemption_amount == 0 {
        return Err(DaoError::InsufficientTreasuryFunds);
    }

    treasury.balance = treasury.balance - redemption_amount;
    treasury.supply = treasury.supply - amount;
    Ok(RedeemOutcome { redemption_amount, holder_balance_after: holder_balance - amount })
}

} // verus!
