//! Error kinds reported by the ledger core.
use vstd::prelude::*;

verus! {

/// Every way an operation of this core can fail. An operation that fails
/// leaves all of its records exactly as they were: no partial mutation is
/// ever committed.
#[derive(Clone, Copy, Debug, PartialEq, Eq, Structural)]
pub enum BodyDfiError {
    /// The caller does not control the referenced identity.
    InvalidAuthority,
    /// A token account does not match the expected holder.
    InvalidTokenAccount,
    /// The referenced mint is not the expected one.
    InvalidMint,
    /// The referenced provider record is not usable.
    InvalidDataProvider,
    /// No provider record exists for the referenced identity.
    DataProviderNotRegistered,
    /// The device class is outside the defined classes.
    InvalidDeviceType,
    /// A submission with the same content hash already exists.
    DataHashAlreadyExists,
    /// A data type is outside the defined types, or a type set is empty.
    InvalidDataType,
    /// The collection timestamp lies in the future.
    InvalidTimestamp,
    /// The provider submitted again before the rate-limit window elapsed.
    DataSubmissionRateLimitExceeded,
    /// A listing has a zero price or period, or is not active.
    InvalidDataListing,
    /// A listing with the same id already exists.
    DataListingAlreadyExists,
    /// The buyer cannot cover the purchase.
    InsufficientFunds,
    /// The buyer already holds a grant for this listing.
    AccessAlreadyPurchased,
    /// The grant's access period has ended.
    AccessExpired,
    /// The proposal is not in the status the operation requires.
    InvalidProposal,
    /// A proposal with the same id already exists.
    ProposalAlreadyExists,
    /// The vote arrived after the voting deadline.
    VotingPeriodEnded,
    /// The voter already voted on this proposal.
    AlreadyVoted,
    /// The caller's token balance is below what the operation requires.
    InsufficientVotingBalance,
    /// A reward of zero tokens was requested.
    InvalidRewardAmount,
    /// The quality score is outside 0..=4.
    InvalidDataQualityScore,
    /// Minting would overflow the supply or push it past the mint cap.
    MintingCapExceeded,
    /// The mint's cooldown window has not elapsed.
    CooldownPeriodActive,
    /// A checked addition or multiplication would overflow.
    ArithmeticOverflow,
}

impl BodyDfiError {
    /// A short description of the error for logs and callers.
    pub fn message(&self) -> &'static str {
        match self {
            BodyDfiError::InvalidAuthority => "Invalid authority",
            BodyDfiError::InvalidTokenAccount => "Invalid token account",
            BodyDfiError::InvalidMint => "Invalid mint",
            BodyDfiError::InvalidDataProvider => "Invalid data provider",
            BodyDfiError::DataProviderNotRegistered => "Data provider not registered",
            BodyDfiError::InvalidDeviceType => "Invalid device type",
            BodyDfiError::DataHashAlreadyExists => "Data hash already exists",
            BodyDfiError::InvalidDataType => "Invalid data type",
            BodyDfiError::InvalidTimestamp => "Invalid timestamp",
            BodyDfiError::DataSubmissionRateLimitExceeded => "Data submission rate limit exceeded",
            BodyDfiError::InvalidDataListing => "Invalid data listing",
            BodyDfiError::DataListingAlreadyExists => "Data listing already exists",
            BodyDfiError::InsufficientFunds => "Insufficient funds",
            BodyDfiError::AccessAlreadyPurchased => "Access already purchased",
            BodyDfiError::AccessExpired => "Access expired",
            BodyDfiError::InvalidProposal => "Invalid proposal",
            BodyDfiError::ProposalAlreadyExists => "Proposal already exists",
            BodyDfiError::VotingPeriodEnded => "Voting period ended",
            BodyDfiError::AlreadyVoted => "Already voted",
            BodyDfiError::InsufficientVotingBalance => "Insufficient token balance for voting",
            BodyDfiError::InvalidRewardAmount => "Invalid reward amount",
            BodyDfiError::InvalidDataQualityScore => "Invalid data quality score",
            BodyDfiError::MintingCapExceeded => "Minting cap exceeded",
            BodyDfiError::CooldownPeriodActive => "Cooldown period active",
            BodyDfiError::ArithmeticOverflow => "Arithmetic overflow",
        }
    }
}

} // verus!
