//! Pooled-fundraising treasury: contribution and redemption accounting,
//! fundraise lifecycle, liquidity time-lock, multisig governance, and the
//! reentrancy guard that wraps every mutating operation.
//!
//! Every operation is a state-transition function: it takes the current
//! state and the externally supplied facts (clock reading, caller identity,
//! ledger balances) and returns the next state or a typed failure, with no
//! partial change on failure. The hosting platform performs the actual
//! value and token movements; this crate decides them.

pub mod errors;
pub mod guard;
pub mod state;
pub mod fundraise;
pub mod redeem;
pub mod liquidity;
pub mod multisig;
pub mod dao;
