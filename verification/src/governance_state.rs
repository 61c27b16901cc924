//! Governance records: proposals, votes and the proposal id counter.
use crate::errors::BodyDfiError;
use crate::AccountId;
use vstd::prelude::*;

verus! {

/// Proposal type: change a platform parameter.
pub const PROPOSAL_TYPE_PARAMETER_CHANGE: u8 = 0;

/// Proposal type: allocate platform funds.
pub const PROPOSAL_TYPE_FUND_ALLOCATION: u8 = 1;

/// Proposal type: amend the data standards.
pub const PROPOSAL_TYPE_DATA_STANDARDS: u8 = 2;

/// Proposal type: adopt a new feature. Highest defined type.
pub const PROPOSAL_TYPE_NEW_FEATURE: u8 = 3;

/// Minimum token balance required to create a proposal.
pub const MIN_TOKENS_TO_PROPOSE: u64 = 1_000_000_000;

/// Voting period used when a proposal names none, in seconds.
pub const DEFAULT_VOTING_PERIOD: u64 = 259_200;

/// Lifecycle status of a proposal. The only transitions are
/// `Active` to `Passed` or `Rejected` on finalization, and `Passed` to
/// `Executed` on execution.
#[derive(Clone, Copy, Debug, PartialEq, Eq, Structural)]
pub enum ProposalStatus {
    /// Open for votes.
    Active,
    /// Finalized with more yes-weight than no-weight.
    Passed,
    /// Finalized with no more yes-weight than no-weight; terminal.
    Rejected,
    /// Passed and then executed; terminal.
    Executed,
}

/// A governance proposal with its weighted tallies.
#[derive(Clone, Debug)]
pub struct Proposal {
    /// Unique proposal id drawn from the id counter.
    pub id: u64,
    /// Identity that created the proposal.
    pub proposer: AccountId,
    /// Title of the proposal.
    pub title: String,
    /// Description of the proposal.
    pub description: String,
    /// Proposal type, one of the `PROPOSAL_TYPE_*` constants.
    pub proposal_type: u8,
    /// Time at which the proposal was created.
    pub created_at: i64,
    /// Deadline for votes.
    pub voting_end_time: i64,
    /// Accumulated weight of yes votes.
    pub yes_votes: u64,
    /// Accumulated weight of no votes.
    pub no_votes: u64,
    /// Lifecycle status.
    pub status: ProposalStatus,
    /// Whether the proposal has been executed; set exactly when the status
    /// becomes `Executed`.
    pub is_executed: bool,
}

impl Proposal {
    /// Invariant that creation establishes and every transition preserves.
    pub open spec fn wf(self) -> bool {
        &&& self.proposal_type <= PROPOSAL_TYPE_NEW_FEATURE
        &&& (self.is_executed <==> self.status is Executed)
    }
}

/// One cast vote. The runtime keys the record by voter and proposal id, so a
/// voter can vote at most once per proposal.
#[derive(Clone, Debug)]
pub struct Vote {
    /// Identity of the voter.
    pub voter: AccountId,
    /// Id of the proposal voted on.
    pub proposal_id: u64,
    /// The choice: true for yes, false for no.
    pub vote: bool,
    /// Weight of the vote, the voter's token balance at the time.
    pub weight: u64,
    /// Time at which the vote was cast.
    pub cast_at: i64,
}

/// Draws the next proposal id from the monotonically increasing counter the
/// runtime persists. The counter holds the id the next proposal will get;
/// the runtime initializes it to 1.
///
/// Fails with `ArithmeticOverflow` exactly when the counter cannot grow any
/// further; then the counter is untouched.
pub fn next_proposal_id(counter: &mut u64) -> (r: Result<u64, BodyDfiError>)
    ensures
        r is Err <==> *old(counter) == u64::MAX,
        r matches Err(e) ==> e == BodyDfiError::ArithmeticOverflow && *final(counter) == *old(
            counter,
        ),
        r matches Ok(id) ==> id == *old(counter) && *final(counter) == *old(counter) + 1,
{
    if *counter == u64::MAX {
        return Err(BodyDfiError::ArithmeticOverflow);
    }
    let id = *counter;
    *counter = *counter + 1;
    Ok(id)
}

} // verus!
