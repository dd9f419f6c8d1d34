//! The failure taxonomy shared by every operation.

use vstd::prelude::*;

verus! {

/// Every way an operation can refuse to run. A failed operation aborts as a
/// whole: the caller observes one of these and no state change.
#[derive(Clone, Copy, Debug, PartialEq, Eq, Structural)]
pub enum DaoError {
    /// An operation that requires the fundraise to be open found it closed,
    /// or past its deadline.
    FundraiseEnded,
    /// The allowlist is non-empty and the contributor is not on it.
    NotAllowlisted,
    /// An operation that requires the fundraise to be closed found it open.
    FundraiseNotEnded,
    /// A contribution amount is zero, or an update it implies would overflow.
    InvalidContributionAmount,
    /// The treasury does not hold enough tokens to issue.
    InsufficientBalance,
    /// A redemption would pay out nothing, or more than the treasury holds.
    InsufficientTreasuryFunds,
    /// A redemption amount is zero or exceeds the holder's token balance.
    InvalidRedemptionAmount,
    /// The caller's address is not permitted for this operation.
    AddressNotAllowed,
    /// Liquidity is already locked.
    LiquidityAlreadyLocked,
    /// Liquidity is not locked.
    LiquidityNotLocked,
    /// The liquidity lock deadline has not passed yet.
    LiquidityStillLocked,
    /// The caller is not an owner of the multisig, or the approval is not
    /// valid under the current owner set.
    Unauthorized,
    /// A threshold of zero, or one that exceeds the number of owners.
    InvalidThreshold,
    /// An owner set that is empty or larger than the maximum.
    InvalidOwnerCount,
    /// The same identity appears twice: as two owners, or as a repeated
    /// approver of one proposal.
    DuplicateOwner,
    /// A mutating call arrived while another was already in progress.
    ReentrancyAttempt,
}

} // verus!
