use vstd::prelude::*;

verus! {

/// Every way a governance operation can be rejected. Each failure is reported
/// with a distinct kind so callers can tell validation, state-conflict,
/// authorization and arithmetic failures apart.
#[derive(Clone, Copy, Debug, PartialEq, Eq, Structural)]
pub enum ErrorCode {
    /// Insufficient votes to release funds
    InsufficientVotes,
    /// Invalid proof of work: hash does not meet the difficulty requirement
    InvalidPoW,
    /// Invalid zero-knowledge proof
    InvalidZKProof,
    /// Proposal already funded
    AlreadyFunded,
    /// Caller has already voted on this proposal
    AlreadyVoted,
    /// Description exceeds maximum length
    DescriptionTooLong,
    /// Funding amount exceeds maximum
    FundingTooHigh,
    /// Invalid proposal content for the proof-of-work hash
    InvalidPoWContent,
    /// Commitment does not match the registered commitment
    CommitmentMismatch,
    /// Proposal has expired
    ProposalExpired,
    /// Insufficient treasury balance
    InsufficientTreasuryBalance,
    /// Insufficient stake to unstake
    InsufficientStake,
    /// Unauthorized: only the admin can perform this action
    UnauthorizedAdmin,
    /// Oracle name exceeds maximum length
    OracleNameTooLong,
    /// Invalid collateral amount (must be positive)
    InvalidCollateralAmount,
    /// Invalid alignment score (must be 0-100)
    InvalidAlignmentScore,
    /// Reasoning exceeds maximum length
    ReasoningTooLong,
    /// Caller is not the registered oracle
    UnauthorizedOracle,
    /// Invalid confidence score (must be 0-100)
    InvalidConfidenceScore,
    /// Milestone id does not match
    MilestoneIdMismatch,
    /// Milestone has not been verified
    MilestoneNotVerified,
    /// Project name is empty or exceeds maximum length
    ProjectNameTooLong,
    /// Project description exceeds maximum length
    ProjectDescriptionTooLong,
    /// Invalid tranche count (must be 1-10)
    InvalidTrancheCount,
    /// Tranches must be numbered consecutively from 1
    InvalidTrancheSequence,
    /// Unlock dates must be non-decreasing
    InvalidUnlockDates,
    /// Invalid voting period (minimum 1 day, maximum 30 days)
    InvalidVotingPeriod,
    /// Tranche not found
    TrancheNotFound,
    /// Tranche is not yet unlocked
    TrancheNotYetUnlocked,
    /// Tranche has already been released
    TrancheAlreadyReleased,
    /// Voting period is still open
    VotingStillOpen,
    /// Insufficient vote approval for release
    InsufficientVoteApproval,
    /// Invalid funding amount (must be positive)
    InvalidFundingAmount,
    /// Insufficient evidence to slash an oracle
    InsufficientSlashingEvidence,
    /// Oracle collateral insufficient for slashing
    InsufficientOracleCollateral,
    /// Oracle is not registered
    OracleNotRegistered,
    /// Invalid stake deposit amount (must be positive)
    InvalidStakeAmount,
    /// Unsigned arithmetic would overflow or underflow; the operation is
    /// rejected as a whole instead of wrapping
    ArithmeticOverflow,
}

} // verus!
