use party_round::dao::{Dao, InitializeDaoParams};
use party_round::errors::DaoError;
use party_round::guard::ReentrancyGuard;

fn fresh_dao() -> Dao {
    Dao::initialize_dao(InitializeDaoParams {
        token_name: String::from("Party Round"),
        token_symbol: String::from("PARTY"),
        total_supply: 10_000,
        fundraise_end_ts: 1_000,
        token_price_lamports: 1_000,
        allowlisted_addresses: vec![],
        authority: 99,
    })
}

#[test]
fn guard_start_then_complete() {
    let mut g = ReentrancyGuard::new();
    assert!(!g.in_progress);
    assert_eq!(g.start(), Ok(()));
    assert!(g.in_progress);
    assert_eq!(g.start(), Err(DaoError::ReentrancyAttempt));
    g.complete();
    assert!(!g.in_progress);
}

#[test]
fn nested_call_fails_and_changes_nothing() {
    let mut dao = fresh_dao();
    // an operation is in flight on this account
    dao.guard.in_progress = true;
    assert_eq!(dao.contribute_funds(500, 7, 5), Err(DaoError::ReentrancyAttempt));
    assert_eq!(dao.state.total_contributions, 0);
    assert_eq!(dao.treasury.balance, 0);
    // the outer operation still holds the guard
    assert!(dao.guard.in_progress);
    assert!(matches!(dao.close_fundraise(1_001, 99), Err(DaoError::ReentrancyAttempt)));
    assert!(matches!(dao.lock_liquidity(99, 2_000), Err(DaoError::ReentrancyAttempt)));
    assert!(matches!(dao.withdraw_locked_liquidity(99, 2_000), Err(DaoError::ReentrancyAttempt)));
    assert!(matches!(dao.redeem_tokens(0, 1), Err(DaoError::ReentrancyAttempt)));
}

#[test]
fn guard_is_clear_after_success_and_after_failure() {
    let mut dao = fresh_dao();
    assert!(dao.contribute_funds(500, 7, 5).is_ok());
    assert!(!dao.guard.in_progress);
    // a failing operation releases the guard too
    assert!(dao.contribute_funds(500, 7, 0).is_err());
    assert!(!dao.guard.in_progress);
    assert!(dao.close_fundraise(500, 1).is_err());
    assert!(!dao.guard.in_progress);
}

#[test]
fn lock_requires_authority() {
    let mut dao = fresh_dao();
    assert_eq!(dao.lock_liquidity(7, 2_000), Err(DaoError::Unauthorized));
    assert!(!dao.state.liquidity_locked);
}

#[test]
fn lock_and_withdraw_strictly_alternate() {
    let mut dao = fresh_dao();
    // withdrawing before any lock fails
    assert_eq!(dao.withdraw_locked_liquidity(99, 500), Err(DaoError::LiquidityNotLocked));

    assert_eq!(dao.lock_liquidity(99, 2_000), Ok(()));
    assert!(dao.state.liquidity_locked);
    assert_eq!(dao.state.lock_end_ts, 2_000);

    // locking twice fails
    assert_eq!(dao.lock_liquidity(99, 3_000), Err(DaoError::LiquidityAlreadyLocked));
    assert_eq!(dao.state.lock_end_ts, 2_000);

    // withdrawing before the deadline fails
    assert_eq!(dao.withdraw_locked_liquidity(99, 1_999), Err(DaoError::LiquidityStillLocked));
    assert!(dao.state.liquidity_locked);

    // at the deadline the lock opens
    assert_eq!(dao.withdraw_locked_liquidity(99, 2_000), Ok(()));
    assert!(!dao.state.liquidity_locked);

    // and a second withdrawal fails again
    assert_eq!(dao.withdraw_locked_liquidity(99, 2_001), Err(DaoError::LiquidityNotLocked));

    // the cycle can start over
    assert_eq!(dao.lock_liquidity(99, 5_000), Ok(()));
    assert!(dao.state.liquidity_locked);
}

#[test]
fn withdraw_requires_authority() {
    let mut dao = fresh_dao();
    assert_eq!(dao.lock_liquidity(99, 2_000), Ok(()));
    assert_eq!(dao.withdraw_locked_liquidity(7, 2_500), Err(DaoError::Unauthorized));
    assert!(dao.state.liquidity_locked);
}
