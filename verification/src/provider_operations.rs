//! Provider registration and the reputation engine.
//!
//! The reputation engine is a pure heuristic over a provider's submission
//! history: a consistency factor grows with the submission count, a quality
//! factor scales the running average quality score, and their sum is clamped
//! to 1000. Callers pass the quality score of the triggering submission; the
//! engine reads the submission count as it stands in the record, so the call
//! site decides whether the count already includes that submission.
use crate::data_state::{DataProvider, DEVICE_TYPE_MEDICAL};
use crate::errors::BodyDfiError;
use crate::AccountId;
use vstd::arithmetic::div_mod::{
    lemma_div_is_ordered, lemma_div_multiples_vanish, lemma_div_pos_is_pos,
};
use vstd::arithmetic::mul::lemma_mul_inequality;
use vstd::prelude::*;

verus! {

/// Running average quality after folding one more score into the weighted
/// average, with integer-division truncation. With no prior submissions the
/// new score stands alone.
pub open spec fn spec_new_avg_quality(prev_avg: int, count: int, quality_score: int) -> int {
    if count > 0 {
        (prev_avg * count + quality_score) / (count + 1)
    } else {
        quality_score
    }
}

/// Consistency factor: early submissions weigh 2 points each, the next ninety
/// half a point each, and later ones a tenth of a point each.
pub open spec fn spec_consistency_factor(count: int) -> int {
    if count < 10 {
        count * 2
    } else if count < 100 {
        20 + (count - 10) / 2
    } else {
        65 + (count - 100) / 10
    }
}

/// Quality factor: the average score 0..=4 scaled onto 80..=120 points.
pub open spec fn spec_quality_factor(avg: int) -> int {
    80 + avg * 10
}

/// Reputation: consistency plus quality, clamped to 1000.
pub open spec fn spec_reputation(count: int, new_avg: int) -> int {
    if spec_consistency_factor(count) + spec_quality_factor(new_avg) <= 1000 {
        spec_consistency_factor(count) + spec_quality_factor(new_avg)
    } else {
        1000
    }
}

/// How one reputation update transforms a provider record: the average and
/// the reputation are recomputed from the stored submission count and the new
/// quality score, and every other field is untouched.
pub open spec fn reputation_updated(
    old_p: DataProvider,
    new_p: DataProvider,
    quality_score: int,
) -> bool {
    &&& new_p.avg_quality_score == spec_new_avg_quality(
        old_p.avg_quality_score as int,
        old_p.submission_count as int,
        quality_score,
    )
    &&& new_p.reputation_score == spec_reputation(
        old_p.submission_count as int,
        new_p.avg_quality_score as int,
    )
    &&& new_p.authority == old_p.authority
    &&& new_p.user_id == old_p.user_id
    &&& new_p.device_type == old_p.device_type
    &&& new_p.submission_count == old_p.submission_count
    &&& new_p.last_submission == old_p.last_submission
    &&& new_p.total_rewards == old_p.total_rewards
}

/// For every prior average in 0..=4, every submission count and every quality
/// score in 0..=4, the updated average stays in 0..=4 and the reputation
/// computed from it stays in 0..=1000.
pub proof fn lemma_reputation_bounds(prev_avg: int, count: int, quality_score: int)
    requires
        0 <= prev_avg <= 4,
        0 <= count,
        0 <= quality_score <= 4,
    ensures
        0 <= spec_new_avg_quality(prev_avg, count, quality_score) <= 4,
        0 <= spec_reputation(count, spec_new_avg_quality(prev_avg, count, quality_score)) <= 1000,
{
    let new_avg = spec_new_avg_quality(prev_avg, count, quality_score);
    if count > 0 {
        let num = prev_avg * count + quality_score;
        lemma_mul_inequality(0, prev_avg, count);
        lemma_div_pos_is_pos(num, count + 1);
        lemma_mul_inequality(prev_avg, 4, count);
        assert(num <= (count + 1) * 4);
        lemma_div_is_ordered(num, (count + 1) * 4, count + 1);
        lemma_div_multiples_vanish(4, count + 1);
    }
    assert(0 <= new_avg <= 4);
    if count >= 100 {
        lemma_div_pos_is_pos(count - 100, 10);
    } else if count >= 10 {
        lemma_div_pos_is_pos(count - 10, 2);
    }
}

/// Event describing a successful provider registration.
#[derive(Debug)]
pub struct ProviderRegisteredEvent {
    /// Identity that owns the new provider record.
    pub authority: AccountId,
    /// User id of the new provider record.
    pub user_id: String,
    /// Device class of the new provider record.
    pub device_type: u8,
}

/// Creates a provider record for `authority`.
///
/// Fails with `InvalidDeviceType` exactly when `device_type` is outside the
/// defined classes. On success the record starts with no submissions, no
/// rewards, a zero average and the base reputation of 100.
pub fn register_data_provider(
    authority: AccountId,
    user_id: String,
    device_type: u8,
) -> (r: Result<(DataProvider, ProviderRegisteredEvent), BodyDfiError>)
    ensures
        r is Err <==> device_type > DEVICE_TYPE_MEDICAL,
        r matches Err(e) ==> e == BodyDfiError::InvalidDeviceType,
        r matches Ok((p, ev)) ==> {
            &&& p.authority == authority
            &&& p.user_id == user_id
            &&& p.device_type == device_type
            &&& p.submission_count == 0
            &&& p.last_submission == 0
            &&& p.total_rewards == 0
            &&& p.avg_quality_score == 0
            &&& p.reputation_score == 100
            &&& p.wf()
            &&& ev.authority == authority
            &&& ev.user_id == user_id
            &&& ev.device_type == device_type
        },
{
    if device_type > DEVICE_TYPE_MEDICAL {
        return Err(BodyDfiError::InvalidDeviceType);
    }
    let event = ProviderRegisteredEvent { authority, user_id: user_id.clone(), device_type };
    let data_provider = DataProvider {
        authority,
        user_id,
        device_type,
        submission_count: 0,
        last_submission: 0,
        total_rewards: 0,
        avg_quality_score: 0,
        reputation_score: 100,  // base reputation score
    };
    Ok((data_provider, event))
}

/// Recomputes the provider's average quality and reputation from one more
/// quality score, as `reputation_updated` describes. Never fails; the bounds
/// 0..=4 on the average and 0..=1000 on the reputation are re-established on
/// every update.
pub fn update_provider_reputation(
    data_provider: &mut DataProvider,
    quality_score: u8,
) -> (r: Result<(), BodyDfiError>)
    requires
        old(data_provider).avg_quality_score <= 4,
        quality_score <= 4,
    ensures
        r is Ok,
        reputation_updated(*old(data_provider), *final(data_provider), quality_score as int),
        final(data_provider).avg_quality_score <= 4,
        final(data_provider).reputation_score <= 1000,
{
    let prev_avg = data_provider.avg_quality_score;
    let count = data_provider.submission_count;
    proof {
        lemma_reputation_bounds(prev_avg as int, count as int, quality_score as int);
    }

    let new_avg: u8 = if count > 0 {
        proof {
            lemma_mul_inequality(prev_avg as int, 4, count as int);
        }
        // Weighted average, widened so the product cannot overflow.
        let num: u128 = (prev_avg as u128) * (count as u128) + (quality_score as u128);
        let wide: u128 = num / ((count as u128) + 1);
        wide as u8
    } else {
        quality_score
    };
    data_provider.avg_quality_score = new_avg;

    // Consistency factor: higher submission count improves reputation,
    // with diminishing increments.
    let consistency_factor: u64 = if count < 10 {
        count * 2
    } else if count < 100 {
        20 + (count - 10) / 2
    } else {
        proof {
            lemma_div_is_ordered(count - 100, u64::MAX - 100, 10);
        }
        65 + (count - 100) / 10
    };

    // Quality factor: scale the 0..=4 average onto 80..=120 points.
    let quality_factor: u64 = 80 + (new_avg as u64) * 10;

    let sum: u64 = consistency_factor + quality_factor;
    let reputation: u16 = if sum <= 1000 {
        sum as u16
    } else {
        1000
    };
    data_provider.reputation_score = reputation;

    Ok(())
}

} // verus!
