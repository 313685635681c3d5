use vstd::prelude::*;

verus! {

/// Failures reported by the library's operations.
#[derive(Clone, Copy, Debug, PartialEq, Eq, Structural)]
pub enum SoarError {
    /// The length of a text field exceeds its allowed limit.
    InvalidFieldLength,
    /// The signer is not an authority for the instruction.
    InvalidAuthority,
    /// An expected signature is not present.
    MissingSignature,
    /// No reward is specified for the achievement.
    NoRewardForAchievement,
    /// The merge does not include the given player account.
    AccountNotPartOfMerge,
    /// A score is below the minimum or above the maximum of its leaderboard.
    ScoreNotWithinBounds,
    /// An account required for a fungible-token reward is missing.
    MissingRequiredAccountsForFtReward,
    /// An account required for a non-fungible-token reward is missing.
    MissingRequiredAccountsForNftReward,
    /// No more rewards are given out.
    NoAvailableRewards,
    /// The user has already claimed the reward.
    DuplicateRewardClaim,
    /// The storage for a grown score list could not be provisioned.
    InsufficientCapacityFunds,
    /// An account the instruction needs was not given.
    MissingExpectedAccount,
    /// The reward is not of the kind the instruction handles.
    InvalidRewardKind,
}

} // verus!
