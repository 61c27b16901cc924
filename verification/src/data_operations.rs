//! Data submission and validation.
//!
//! A submission is validated in order: data type, collection timestamp, then
//! the per-provider rate limit. Uniqueness of the content hash is enforced by
//! the surrounding runtime, which keys the submission record by the hash and
//! refuses to create it twice. The reputation engine runs once at submission
//! time with a placeholder score of 2, before the submission count is
//! incremented, and once more at validation time with the real score.
use crate::data_state::{DataProvider, DataSubmission, DATA_TYPE_MEDICAL};
use crate::errors::BodyDfiError;
use crate::provider_operations::{
    reputation_updated, spec_new_avg_quality, spec_reputation, update_provider_reputation,
};
use crate::AccountId;
use vstd::prelude::*;

verus! {

/// Minimum seconds between two accepted submissions of one provider.
pub const DATA_SUBMISSION_RATE_LIMIT: i64 = 300;

/// Placeholder quality score recorded until a validator assigns the real one.
pub const INITIAL_QUALITY_SCORE: u8 = 2;

/// The error a submission is rejected with, or `None` when it is accepted.
/// The checks apply in this order, each against the snapshot the operation
/// received.
pub open spec fn submit_rejection(
    provider: DataProvider,
    data_type: u8,
    timestamp: i64,
    current_time: i64,
) -> Option<BodyDfiError> {
    if data_type > DATA_TYPE_MEDICAL {
        Some(BodyDfiError::InvalidDataType)
    } else if timestamp > current_time {
        Some(BodyDfiError::InvalidTimestamp)
    } else if current_time - provider.last_submission < DATA_SUBMISSION_RATE_LIMIT {
        Some(BodyDfiError::DataSubmissionRateLimitExceeded)
    } else if provider.submission_count == u64::MAX {
        Some(BodyDfiError::ArithmeticOverflow)
    } else {
        None
    }
}

/// How an accepted submission at `current_time` transforms the provider
/// record: the reputation engine folds in the placeholder score against the
/// count of earlier submissions, then the count grows by one and the
/// rate-limit clock restarts.
pub open spec fn provider_after_submit(
    old_p: DataProvider,
    new_p: DataProvider,
    current_time: i64,
) -> bool {
    &&& new_p.avg_quality_score == spec_new_avg_quality(
        old_p.avg_quality_score as int,
        old_p.submission_count as int,
        INITIAL_QUALITY_SCORE as int,
    )
    &&& new_p.reputation_score == spec_reputation(
        old_p.submission_count as int,
        new_p.avg_quality_score as int,
    )
    &&& new_p.submission_count == old_p.submission_count + 1
    &&& new_p.last_submission == current_time
    &&& new_p.authority == old_p.authority
    &&& new_p.user_id == old_p.user_id
    &&& new_p.device_type == old_p.device_type
    &&& new_p.total_rewards == old_p.total_rewards
}

/// After a submission is accepted at `t1`, a second otherwise-valid
/// submission at `t2` is rejected with the rate-limit error whenever less
/// than `DATA_SUBMISSION_RATE_LIMIT` seconds have passed, and is no longer
/// rejected once exactly that many seconds have passed.
pub proof fn lemma_resubmission_window(
    p1: DataProvider,
    p2: DataProvider,
    data_type1: u8,
    timestamp1: i64,
    t1: i64,
    data_type2: u8,
    timestamp2: i64,
    t2: i64,
)
    requires
        submit_rejection(p1, data_type1, timestamp1, t1) is None,
        provider_after_submit(p1, p2, t1),
        data_type2 <= DATA_TYPE_MEDICAL,
        timestamp2 <= t2,
    ensures
        t2 - t1 < DATA_SUBMISSION_RATE_LIMIT ==> submit_rejection(p2, data_type2, timestamp2, t2)
            == Some(BodyDfiError::DataSubmissionRateLimitExceeded),
        t2 - t1 >= DATA_SUBMISSION_RATE_LIMIT && p2.submission_count < u64::MAX
            ==> submit_rejection(p2, data_type2, timestamp2, t2) is None,
{
}

/// Event describing an accepted data submission.
#[derive(Debug)]
pub struct DataSubmittedEvent {
    /// Identity of the submitting provider.
    pub provider: AccountId,
    /// Content hash of the submitted data.
    pub data_hash: String,
    /// Data type of the submitted data.
    pub data_type: u8,
    /// Collection time of the submitted data.
    pub timestamp: i64,
}

/// Records one data submission for `data_provider`.
///
/// Rejects, in order: a data type outside the defined types
/// (`InvalidDataType`), a collection timestamp after `current_time`
/// (`InvalidTimestamp`), a submission less than `DATA_SUBMISSION_RATE_LIMIT`
/// seconds after the provider's previous one
/// (`DataSubmissionRateLimitExceeded`), and a submission count that can no
/// longer grow (`ArithmeticOverflow`). On rejection the provider record is
/// untouched. On success the new submission starts unvalidated with a zero
/// quality score, and the provider record changes exactly as
/// `provider_after_submit` describes.
pub fn submit_data(
    data_provider: &mut DataProvider,
    data_hash: String,
    data_type: u8,
    timestamp: i64,
    metadata: String,
    current_time: i64,
) -> (r: Result<(DataSubmission, DataSubmittedEvent), BodyDfiError>)
    requires
        old(data_provider).avg_quality_score <= 4,
    ensures
        r is Err <==> submit_rejection(*old(data_provider), data_type, timestamp, current_time)
            is Some,
        r matches Err(e) ==> Some(e) == submit_rejection(
            *old(data_provider),
            data_type,
            timestamp,
            current_time,
        ) && *final(data_provider) == *old(data_provider),
        r matches Ok((sub, ev)) ==> {
            &&& sub.provider == old(data_provider).authority
            &&& sub.data_hash == data_hash
            &&& sub.data_type == data_type
            &&& sub.timestamp == timestamp
            &&& sub.metadata == metadata
            &&& sub.quality_score == 0
            &&& !sub.is_validated
            &&& sub.wf()
            &&& provider_after_submit(*old(data_provider), *final(data_provider), current_time)
            &&& final(data_provider).avg_quality_score <= 4
            &&& final(data_provider).reputation_score <= 1000
            &&& (old(data_provider).wf() ==> final(data_provider).wf())
            &&& ev.provider == old(data_provider).authority
            &&& ev.data_hash == data_hash
            &&& ev.data_type == data_type
            &&& ev.timestamp == timestamp
        },
{
    if data_type > DATA_TYPE_MEDICAL {
        return Err(BodyDfiError::InvalidDataType);
    }
    if timestamp > current_time {
        return Err(BodyDfiError::InvalidTimestamp);
    }
    // Widened so the difference of two timestamps cannot overflow.
    if (current_time as i128) - (data_provider.last_submission as i128)
        < (DATA_SUBMISSION_RATE_LIMIT as i128) {
        return Err(BodyDfiError::DataSubmissionRateLimitExceeded);
    }
    if data_provider.submission_count == u64::MAX {
        return Err(BodyDfiError::ArithmeticOverflow);
    }

    let event = DataSubmittedEvent {
        provider: data_provider.authority,
        data_hash: data_hash.clone(),
        data_type,
        timestamp,
    };
    let data_submission = DataSubmission {
        provider: data_provider.authority,
        data_hash,
        data_type,
        timestamp,
        metadata,
        quality_score: 0,  // set by a validator later
        is_validated: false,
    };

    // Fold the placeholder score in against the count of earlier submissions,
    // then count this one and restart the rate-limit clock.
    update_provider_reputation(data_provider, INITIAL_QUALITY_SCORE)?;
    data_provider.submission_count = data_provider.submission_count + 1;
    data_provider.last_submission = current_time;

    Ok((data_submission, event))
}

/// Assigns the quality score a trusted validator determined for a submission
/// and reruns the reputation engine with it. Authorization of the validator
/// is the runtime's concern.
///
/// Fails with `InvalidDataQualityScore` exactly when `quality_score` is 5 or
/// more; then both records are untouched. On success the submission carries
/// the score and is marked validated, and the provider record changes exactly
/// as `reputation_updated` describes.
pub fn validate_data(
    data_submission: &mut DataSubmission,
    data_provider: &mut DataProvider,
    quality_score: u8,
) -> (r: Result<(), BodyDfiError>)
    requires
        old(data_provider).avg_quality_score <= 4,
    ensures
        r is Err <==> quality_score >= 5,
        r matches Err(e) ==> e == BodyDfiError::InvalidDataQualityScore
            && *final(data_submission) == *old(data_submission)
            && *final(data_provider) == *old(data_provider),
        r is Ok ==> {
            &&& final(data_submission).quality_score == quality_score
            &&& final(data_submission).is_validated
            &&& final(data_submission).provider == old(data_submission).provider
            &&& final(data_submission).data_hash == old(data_submission).data_hash
            &&& final(data_submission).data_type == old(data_submission).data_type
            &&& final(data_submission).timestamp == old(data_submission).timestamp
            &&& final(data_submission).metadata == old(data_submission).metadata
            &&& reputation_updated(
                *old(data_provider),
                *final(data_provider),
                quality_score as int,
            )
            &&& final(data_provider).avg_quality_score <= 4
            &&& final(data_provider).reputation_score <= 1000
            &&& (old(data_provider).wf() ==> final(data_provider).wf())
            &&& (old(data_submission).wf() ==> final(data_submission).wf())
        },
{
    if quality_score >= 5 {
        return Err(BodyDfiError::InvalidDataQualityScore);
    }
    data_submission.quality_score = quality_score;
    data_submission.is_validated = true;
    update_provider_reputation(data_provider, quality_score)?;
    Ok(())
}

} // verus!
