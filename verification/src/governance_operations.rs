//! The proposal lifecycle and weighted voting.
//!
//! A proposal moves `Active` to `Passed` or `Rejected` when finalized, and
//! `Passed` to `Executed` when executed; nothing leaves `Rejected` or
//! `Executed`. Voting weight equals the voter's token balance, one unit of
//! holding per unit of weight. A vote cast exactly at the deadline is counted
//! and then finalizes the proposal at once.
use crate::errors::BodyDfiError;
use crate::governance_state::{
    Proposal, ProposalStatus, Vote, DEFAULT_VOTING_PERIOD, MIN_TOKENS_TO_PROPOSE,
    PROPOSAL_TYPE_NEW_FEATURE,
};
use crate::AccountId;
use vstd::prelude::*;

verus! {

/// The voting period a proposal actually gets: the requested one, or the
/// default where none was requested.
pub open spec fn spec_actual_voting_period(voting_period: u64) -> int {
    if voting_period > 0 {
        voting_period as int
    } else {
        DEFAULT_VOTING_PERIOD as int
    }
}

/// The error a proposal creation is rejected with, or `None` when it is
/// accepted: too small a balance, then an undefined proposal type, then a
/// deadline that cannot be represented.
pub open spec fn proposal_rejection(
    proposal_type: u8,
    voting_period: u64,
    proposer_voting_balance: u64,
    current_time: i64,
) -> Option<BodyDfiError> {
    if proposer_voting_balance < MIN_TOKENS_TO_PROPOSE {
        Some(BodyDfiError::InsufficientVotingBalance)
    } else if proposal_type > PROPOSAL_TYPE_NEW_FEATURE {
        Some(BodyDfiError::InvalidProposal)
    } else if current_time + spec_actual_voting_period(voting_period) > i64::MAX {
        Some(BodyDfiError::ArithmeticOverflow)
    } else {
        None
    }
}

/// The error a vote is rejected with, or `None` when it is counted: a
/// proposal no longer open, then a voter with no weight, then a vote after
/// the deadline, then a tally that cannot grow.
pub open spec fn vote_rejection(
    proposal: Proposal,
    vote_for: bool,
    voter_balance: u64,
    current_time: i64,
) -> Option<BodyDfiError> {
    if !(proposal.status is Active) {
        Some(BodyDfiError::InvalidProposal)
    } else if voter_balance == 0 {
        Some(BodyDfiError::InsufficientVotingBalance)
    } else if current_time > proposal.voting_end_time {
        Some(BodyDfiError::VotingPeriodEnded)
    } else if (if vote_for {
        proposal.yes_votes + voter_balance
    } else {
        proposal.no_votes + voter_balance
    }) > u64::MAX {
        Some(BodyDfiError::ArithmeticOverflow)
    } else {
        None
    }
}

/// The status a finalized proposal gets from its tallies: `Passed` only with
/// strictly more yes-weight than no-weight, `Rejected` otherwise.
pub open spec fn spec_finalized_status(yes_votes: u64, no_votes: u64) -> ProposalStatus {
    if yes_votes > no_votes {
        ProposalStatus::Passed
    } else {
        ProposalStatus::Rejected
    }
}

/// A tie finalizes to `Rejected`: the comparison is strict, so equal tallies
/// never pass a proposal.
pub proof fn lemma_tie_breaks_to_rejected(yes_votes: u64, no_votes: u64)
    requires
        yes_votes == no_votes,
    ensures
        spec_finalized_status(yes_votes, no_votes) is Rejected,
{
}

/// Whether a proposal can be executed: it passed and was not executed yet.
pub open spec fn spec_execute_allowed(proposal: Proposal) -> bool {
    proposal.status is Passed && !proposal.is_executed
}

/// Execution is terminal: once a proposal has been executed, executing it
/// again is never allowed.
pub proof fn lemma_execute_is_terminal(proposal: Proposal, executed: Proposal)
    requires
        spec_execute_allowed(proposal),
        executed == (Proposal {
            status: ProposalStatus::Executed,
            is_executed: true,
            ..proposal
        }),
    ensures
        !spec_execute_allowed(executed),
{
}

/// Event describing a created proposal.
#[derive(Debug)]
pub struct ProposalCreatedEvent {
    /// Id of the new proposal.
    pub proposal_id: u64,
    /// Identity that created it.
    pub proposer: AccountId,
    /// Its title.
    pub title: String,
    /// Its proposal type.
    pub proposal_type: u8,
    /// Its voting deadline.
    pub voting_end_time: i64,
}

/// Event describing a counted vote.
#[derive(Debug)]
pub struct VoteCastEvent {
    /// Id of the proposal voted on.
    pub proposal_id: u64,
    /// Identity of the voter.
    pub voter: AccountId,
    /// The choice: true for yes, false for no.
    pub vote_for: bool,
    /// Weight the vote carried.
    pub weight: u64,
}

/// Event describing a finalized proposal.
#[derive(Debug)]
pub struct ProposalFinalizedEvent {
    /// Id of the finalized proposal.
    pub proposal_id: u64,
    /// Final yes-weight.
    pub yes_votes: u64,
    /// Final no-weight.
    pub no_votes: u64,
    /// Whether the proposal passed.
    pub passed: bool,
}

/// Event describing an executed proposal.
#[derive(Debug)]
pub struct ProposalExecutedEvent {
    /// Id of the executed proposal.
    pub proposal_id: u64,
    /// Time of the execution.
    pub executed_at: i64,
}

/// Creates a proposal with the id drawn for it by `next_proposal_id`.
///
/// Rejects exactly what `proposal_rejection` names, in its order. On success
/// the proposal starts `Active` with empty tallies and its deadline one
/// voting period after `current_time`.
pub fn create_proposal(
    proposer: AccountId,
    proposal_id: u64,
    title: String,
    description: String,
    proposal_type: u8,
    voting_period: u64,
    proposer_voting_balance: u64,
    current_time: i64,
) -> (r: Result<(Proposal, ProposalCreatedEvent), BodyDfiError>)
    ensures
        r is Err <==> proposal_rejection(
            proposal_type,
            voting_period,
            proposer_voting_balance,
            current_time,
        ) is Some,
        r matches Err(e) ==> Some(e) == proposal_rejection(
            proposal_type,
            voting_period,
            proposer_voting_balance,
            current_time,
        ),
        r matches Ok((proposal, ev)) ==> {
            &&& proposal.id == proposal_id
            &&& proposal.proposer == proposer
            &&& proposal.title == title
            &&& proposal.description == description
            &&& proposal.proposal_type == proposal_type
            &&& proposal.created_at == current_time
            &&& proposal.voting_end_time == current_time + spec_actual_voting_period(
                voting_period,
            )
            &&& proposal.yes_votes == 0
            &&& proposal.no_votes == 0
            &&& proposal.status is Active
            &&& !proposal.is_executed
            &&& proposal.wf()
            &&& ev.proposal_id == proposal_id
            &&& ev.proposer == proposer
            &&& ev.title == title
            &&& ev.proposal_type == proposal_type
            &&& ev.voting_end_time == proposal.voting_end_time
        },
{
    if proposer_voting_balance < MIN_TOKENS_TO_PROPOSE {
        return Err(BodyDfiError::InsufficientVotingBalance);
    }
    if proposal_type > PROPOSAL_TYPE_NEW_FEATURE {
        return Err(BodyDfiError::InvalidProposal);
    }
    let actual_voting_period: u64 = if voting_period > 0 {
        voting_period
    } else {
        DEFAULT_VOTING_PERIOD
    };
    let voting_end_time = match current_time.checked_add_unsigned(actual_voting_period) {
        Some(x) => x,
        None => {
            return Err(BodyDfiError::ArithmeticOverflow);
        },
    };

    let event = ProposalCreatedEvent {
        proposal_id,
        proposer,
        title: title.clone(),
        proposal_type,
        voting_end_time,
    };
    let proposal = Proposal {
        id: proposal_id,
        proposer,
        title,
        description,
        proposal_type,
        created_at: current_time,
        voting_end_time,
        yes_votes: 0,
        no_votes: 0,
        status: ProposalStatus::Active,
        is_executed: false,
    };
    Ok((proposal, event))
}

/// Counts one weighted vote on `proposal`.
///
/// Rejects exactly what `vote_rejection` names, in its order; then the
/// proposal is untouched. On success the chosen tally grows by the voter's
/// balance, and when the vote arrives exactly at the deadline the proposal is
/// finalized at once from the updated tallies.
pub fn cast_vote(
    voter: AccountId,
    proposal: &mut Proposal,
    vote_for: bool,
    voter_balance: u64,
    current_time: i64,
) -> (r: Result<(Vote, VoteCastEvent, Option<ProposalFinalizedEvent>), BodyDfiError>)
    ensures
        r is Err <==> vote_rejection(*old(proposal), vote_for, voter_balance, current_time)
            is Some,
        r matches Err(e) ==> Some(e) == vote_rejection(
            *old(proposal),
            vote_for,
            voter_balance,
            current_time,
        ) && *final(proposal) == *old(proposal),
        r matches Ok((vote, ev, finalized)) ==> {
            &&& vote.voter == voter
            &&& vote.proposal_id == old(proposal).id
            &&& vote.vote == vote_for
            &&& vote.weight == voter_balance
            &&& vote.cast_at == current_time
            &&& final(proposal).yes_votes == old(proposal).yes_votes + (if vote_for {
                voter_balance as int
            } else {
                0int
            })
            &&& final(proposal).no_votes == old(proposal).no_votes + (if vote_for {
                0int
            } else {
                voter_balance as int
            })
            &&& final(proposal).id == old(proposal).id
            &&& final(proposal).proposer == old(proposal).proposer
            &&& final(proposal).title == old(proposal).title
            &&& final(proposal).description == old(proposal).description
            &&& final(proposal).proposal_type == old(proposal).proposal_type
            &&& final(proposal).created_at == old(proposal).created_at
            &&& final(proposal).voting_end_time == old(proposal).voting_end_time
            &&& final(proposal).is_executed == old(proposal).is_executed
            &&& (current_time >= old(proposal).voting_end_time ==> {
                &&& final(proposal).status == spec_finalized_status(
                    final(proposal).yes_votes,
                    final(proposal).no_votes,
                )
                &&& (finalized matches Some(f) ==> {
                    &&& f.proposal_id == old(proposal).id
                    &&& f.yes_votes == final(proposal).yes_votes
                    &&& f.no_votes == final(proposal).no_votes
                    &&& f.passed == (final(proposal).yes_votes > final(proposal).no_votes)
                })
                &&& finalized is Some
            })
            &&& (current_time < old(proposal).voting_end_time ==> final(proposal).status
                is Active && finalized is None)
            &&& ev.proposal_id == old(proposal).id
            &&& ev.voter == voter
            &&& ev.vote_for == vote_for
            &&& ev.weight == voter_balance
            &&& (old(proposal).wf() ==> final(proposal).wf())
        },
{
    if !matches!(proposal.status, ProposalStatus::Active) {
        return Err(BodyDfiError::InvalidProposal);
    }
    if voter_balance == 0 {
        return Err(BodyDfiError::InsufficientVotingBalance);
    }
    if current_time > proposal.voting_end_time {
        return Err(BodyDfiError::VotingPeriodEnded);
    }

    // One token of holding carries one unit of voting weight.
    let voting_weight = voter_balance;
    if vote_for {
        match proposal.yes_votes.checked_add(voting_weight) {
            Some(x) => {
                proposal.yes_votes = x;
            },
            None => {
                return Err(BodyDfiError::ArithmeticOverflow);
            },
        }
    } else {
        match proposal.no_votes.checked_add(voting_weight) {
            Some(x) => {
                proposal.no_votes = x;
            },
            None => {
                return Err(BodyDfiError::ArithmeticOverflow);
            },
        }
    }

    let vote = Vote {
        voter,
        proposal_id: proposal.id,
        vote: vote_for,
        weight: voting_weight,
        cast_at: current_time,
    };
    let event = VoteCastEvent {
        proposal_id: proposal.id,
        voter,
        vote_for,
        weight: voting_weight,
    };

    // A vote that lands exactly on the deadline closes the poll.
    let finalized = if current_time >= proposal.voting_end_time {
        Some(finalize_proposal(proposal))
    } else {
        None
    };

    Ok((vote, event, finalized))
}

/// Closes the poll on an open proposal: the status becomes `Passed` with
/// strictly more yes-weight than no-weight and `Rejected` otherwise, as
/// `spec_finalized_status` states; ties reject.
pub fn finalize_proposal(proposal: &mut Proposal) -> (ev: ProposalFinalizedEvent)
    requires
        old(proposal).status is Active,
    ensures
        *final(proposal) == (Proposal {
            status: spec_finalized_status(old(proposal).yes_votes, old(proposal).no_votes),
            ..*old(proposal)
        }),
        ev.proposal_id == old(proposal).id,
        ev.yes_votes == old(proposal).yes_votes,
        ev.no_votes == old(proposal).no_votes,
        ev.passed == (old(proposal).yes_votes > old(proposal).no_votes),
        old(proposal).wf() ==> final(proposal).wf(),
{
    let passed = proposal.yes_votes > proposal.no_votes;
    proposal.status = if passed {
        ProposalStatus::Passed
    } else {
        ProposalStatus::Rejected
    };
    ProposalFinalizedEvent {
        proposal_id: proposal.id,
        yes_votes: proposal.yes_votes,
        no_votes: proposal.no_votes,
        passed,
    }
}

/// Executes a passed proposal. The effect of the proposal on platform
/// parameters is outside this core; execution only seals the record.
///
/// Fails with `InvalidProposal` exactly when the proposal is not `Passed` or
/// was executed before; then the proposal is untouched. A second execution
/// of the same proposal therefore always fails.
pub fn execute_proposal(proposal: &mut Proposal, current_time: i64) -> (r: Result<
    ProposalExecutedEvent,
    BodyDfiError,
>)
    ensures
        r is Ok <==> spec_execute_allowed(*old(proposal)),
        r matches Err(e) ==> e == BodyDfiError::InvalidProposal && *final(proposal) == *old(
            proposal,
        ),
        r matches Ok(ev) ==> {
            &&& *final(proposal) == (Proposal {
                status: ProposalStatus::Executed,
                is_executed: true,
                ..*old(proposal)
            })
            &&& ev.proposal_id == old(proposal).id
            &&& ev.executed_at == current_time
            &&& (old(proposal).wf() ==> final(proposal).wf())
        },
{
    if !matches!(proposal.status, ProposalStatus::Passed) {
        return Err(BodyDfiError::InvalidProposal);
    }
    if proposal.is_executed {
        return Err(BodyDfiError::InvalidProposal);
    }
    proposal.is_executed = true;
    proposal.status = ProposalStatus::Executed;
    Ok(ProposalExecutedEvent { proposal_id: proposal.id, executed_at: current_time })
}

} // verus!
