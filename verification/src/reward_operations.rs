//! Reward minting with quality multipliers, a cooldown and a supply cap.
use crate::errors::BodyDfiError;
use crate::token_state::TokenMint;
use crate::AccountId;
use vstd::arithmetic::div_mod::lemma_div_multiples_vanish;
use vstd::prelude::*;

verus! {

/// Denominator of the quality multipliers: a multiplier of 100 leaves the
/// base amount unchanged.
pub const BASE_REWARD_MULTIPLIER: u64 = 100;

/// Reward multiplier for a quality score in 0..=4, in percent: from 80 for
/// the lowest quality to 120 for the highest.
pub open spec fn spec_quality_multiplier(quality_score: int) -> int {
    if quality_score == 0 {
        80
    } else if quality_score == 1 {
        90
    } else if quality_score == 2 {
        100
    } else if quality_score == 3 {
        110
    } else {
        120
    }
}

/// Tokens actually minted for a base amount at a quality score: the base
/// scaled by the multiplier, with truncating division.
pub open spec fn spec_adjusted_reward(amount: int, quality_score: int) -> int {
    amount * spec_quality_multiplier(quality_score) / (BASE_REWARD_MULTIPLIER as int)
}

/// A medium quality score of 2 leaves every base amount unchanged, and the
/// lowest score scales it to 80%, truncated.
pub proof fn lemma_reward_multipliers(amount: u64)
    ensures
        spec_adjusted_reward(amount as int, 2) == amount,
        spec_adjusted_reward(amount as int, 0) == amount * 80 / 100,
{
    lemma_div_multiples_vanish(amount as int, 100);
}

/// The error a reward is rejected with, or `None` when it is minted: a state
/// that is not the utility token's, then a zero base amount, then an
/// undefined quality score, then the cooldown, then a scaled amount that
/// cannot fit, then a supply that would overflow or pass the cap.
pub open spec fn reward_rejection(
    token_mint: TokenMint,
    amount: u64,
    quality_score: u8,
    current_time: i64,
) -> Option<BodyDfiError> {
    if !token_mint.is_move_token {
        Some(BodyDfiError::InvalidMint)
    } else if amount == 0 {
        Some(BodyDfiError::InvalidRewardAmount)
    } else if quality_score >= 5 {
        Some(BodyDfiError::InvalidDataQualityScore)
    } else if current_time - token_mint.last_mint_timestamp < token_mint.mint_cooldown {
        Some(BodyDfiError::CooldownPeriodActive)
    } else if amount * spec_quality_multiplier(quality_score as int) > u64::MAX {
        Some(BodyDfiError::ArithmeticOverflow)
    } else if token_mint.circulating_supply + spec_adjusted_reward(
        amount as int,
        quality_score as int,
    ) > u64::MAX {
        Some(BodyDfiError::MintingCapExceeded)
    } else if token_mint.mint_cap > 0 && token_mint.circulating_supply + spec_adjusted_reward(
        amount as int,
        quality_score as int,
    ) > token_mint.mint_cap {
        Some(BodyDfiError::MintingCapExceeded)
    } else {
        None
    }
}

/// Event describing a minted reward.
#[derive(Debug)]
pub struct RewardEvent {
    /// Identity of the rewarded provider.
    pub provider: AccountId,
    /// Tokens minted after the quality multiplier.
    pub amount: u64,
    /// Quality score the reward was scaled by.
    pub data_quality_score: u8,
    /// Time of the mint.
    pub timestamp: i64,
}

/// Mints a quality-scaled reward of the utility token to `provider`.
///
/// Rejects exactly what `reward_rejection` names, in its order; then the
/// mint state is untouched — in particular, a mint that would pass the cap
/// leaves the circulating supply as it was. On success it returns the minted
/// amount, `spec_adjusted_reward` of the base amount, for the runtime to
/// issue to the provider's holding; the circulating supply grows by exactly
/// that amount, the cooldown clock restarts, and the supply stays within the
/// cap whenever the cap is set.
pub fn reward_data_provider(
    token_mint: &mut TokenMint,
    provider: AccountId,
    amount: u64,
    data_quality_score: u8,
    current_time: i64,
) -> (r: Result<(u64, RewardEvent), BodyDfiError>)
    ensures
        r is Err <==> reward_rejection(*old(token_mint), amount, data_quality_score, current_time)
            is Some,
        r matches Err(e) ==> Some(e) == reward_rejection(
            *old(token_mint),
            amount,
            data_quality_score,
            current_time,
        ) && *final(token_mint) == *old(token_mint),
        r matches Ok((minted, ev)) ==> {
            &&& minted == spec_adjusted_reward(amount as int, data_quality_score as int)
            &&& *final(token_mint) == (TokenMint {
                circulating_supply: (old(token_mint).circulating_supply + minted) as u64,
                last_mint_timestamp: current_time,
                ..*old(token_mint)
            })
            &&& final(token_mint).wf()
            &&& ev.provider == provider
            &&& ev.amount == minted
            &&& ev.data_quality_score == data_quality_score
            &&& ev.timestamp == current_time
        },
{
    if !token_mint.is_move_token {
        return Err(BodyDfiError::InvalidMint);
    }
    if amount == 0 {
        return Err(BodyDfiError::InvalidRewardAmount);
    }
    if data_quality_score >= 5 {
        return Err(BodyDfiError::InvalidDataQualityScore);
    }
    // Widened so the difference of two timestamps cannot overflow.
    if (current_time as i128) - (token_mint.last_mint_timestamp as i128)
        < (token_mint.mint_cooldown as i128) {
        return Err(BodyDfiError::CooldownPeriodActive);
    }

    let quality_multiplier: u64 = match data_quality_score {
        0 => 80,
        1 => 90,
        2 => 100,
        3 => 110,
        _ => 120,
    };
    let adjusted_amount = match amount.checked_mul(quality_multiplier) {
        Some(x) => x / BASE_REWARD_MULTIPLIER,
        None => {
            return Err(BodyDfiError::ArithmeticOverflow);
        },
    };

    let new_supply = match token_mint.circulating_supply.checked_add(adjusted_amount) {
        Some(x) => x,
        None => {
            return Err(BodyDfiError::MintingCapExceeded);
        },
    };
    if token_mint.mint_cap > 0 && new_supply > token_mint.mint_cap {
        return Err(BodyDfiError::MintingCapExceeded);
    }

    token_mint.circulating_supply = new_supply;
    token_mint.last_mint_timestamp = current_time;

    let event = RewardEvent {
        provider,
        amount: adjusted_amount,
        data_quality_score,
        timestamp: current_time,
    };
    Ok((adjusted_amount, event))
}

} // verus!
