use party_round::dao::{Dao, InitializeDaoParams};
use party_round::errors::DaoError;
use party_round::guard::ReentrancyGuard;
use party_round::state::{DaoState, Treasury};

/// A closed fundraise whose treasury holds `balance` base currency, with
/// `supply` tokens outstanding, all of them in holders' hands.
fn closed_dao(balance: u64, supply: u64) -> Dao {
    Dao {
        guard: ReentrancyGuard::new(),
        state: DaoState {
            token_name: String::from("Party Round"),
            token_symbol: String::from("PARTY"),
            total_supply: supply,
            fundraise_end_ts: 1_000,
            token_price_lamports: 1_000,
            allowlisted_addresses: vec![],
            authority: 99,
            fundraise_ended: true,
            total_contributions: balance,
            total_contributors: 1,
            liquidity_locked: false,
            lock_end_ts: 0,
        },
        treasury: Treasury { balance, token_reserve: 0, supply },
    }
}

#[test]
fn redeem_quarter_of_supply_pays_quarter_of_treasury() {
    let mut dao = closed_dao(1_000, 10_000);
    let out = dao.redeem_tokens(2_500, 2_500).unwrap();
    assert_eq!(out.redemption_amount, 250); // floor(1000 * 2500 / 10000)
    assert_eq!(out.holder_balance_after, 0);
    assert_eq!(dao.treasury.balance, 750);
    assert_eq!(dao.treasury.supply, 7_500);
}

#[test]
fn redeem_before_close_fails() {
    let mut dao = closed_dao(1_000, 10_000);
    dao.state.fundraise_ended = false;
    assert!(matches!(dao.redeem_tokens(2_500, 2_500), Err(DaoError::FundraiseNotEnded)));
    assert_eq!(dao.treasury.balance, 1_000);
}

#[test]
fn redeem_zero_or_beyond_balance_is_invalid() {
    let mut dao = closed_dao(1_000, 10_000);
    assert!(matches!(dao.redeem_tokens(2_500, 0), Err(DaoError::InvalidRedemptionAmount)));
    assert!(matches!(dao.redeem_tokens(2_500, 2_501), Err(DaoError::InvalidRedemptionAmount)));
    assert_eq!(dao.treasury.balance, 1_000);
    assert_eq!(dao.treasury.supply, 10_000);
}

#[test]
fn redeem_that_pays_nothing_fails() {
    // 1 * 100 / 10000 rounds down to zero
    let mut dao = closed_dao(1, 10_000);
    assert!(matches!(dao.redeem_tokens(100, 100), Err(DaoError::InsufficientTreasuryFunds)));
    assert_eq!(dao.treasury.balance, 1);
}

#[test]
fn full_redemptions_drain_at_most_the_original_balance() {
    let mut dao = closed_dao(1_000, 10_000);
    let first = dao.redeem_tokens(2_500, 2_500).unwrap();
    let second = dao.redeem_tokens(7_500, 7_500).unwrap();
    let paid: u64 = first.redemption_amount + second.redemption_amount;
    assert!(paid <= 1_000);
    assert_eq!(dao.treasury.balance, 1_000 - paid);
    assert_eq!(dao.treasury.supply, 0);
}

#[test]
fn dust_accumulates_from_rounding() {
    // three holders, uneven split: each floor leaves a remainder behind
    let mut dao = closed_dao(1_000, 9_999);
    let a = dao.redeem_tokens(3_333, 3_333).unwrap();
    assert_eq!(a.redemption_amount, 333); // floor(1000 * 3333 / 9999)
    let b = dao.redeem_tokens(3_333, 3_333).unwrap();
    assert_eq!(b.redemption_amount, 333); // floor(667 * 3333 / 6666)
    let c = dao.redeem_tokens(3_333, 3_333).unwrap();
    assert_eq!(c.redemption_amount, 334); // the last holder takes what is left
    assert_eq!(dao.treasury.balance, 0);
    assert_eq!(dao.treasury.supply, 0);
}

#[test]
fn widened_arithmetic_survives_large_products() {
    // balance * amount far exceeds the native width; the widened
    // intermediate keeps the quotient exact
    let big: u64 = u64::MAX / 2;
    let mut dao = closed_dao(big, big);
    let out = dao.redeem_tokens(big, big).unwrap();
    assert_eq!(out.redemption_amount, big);
    assert_eq!(dao.treasury.balance, 0);
}
