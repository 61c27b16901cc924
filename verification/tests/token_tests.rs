use bodydfi::errors::BodyDfiError;
use bodydfi::reward_operations::reward_data_provider;
use bodydfi::token_operations::{initialize_bodydfi_token, initialize_move_token};

#[test]
fn move_token_starts_empty_with_cooldown() {
    let t = initialize_move_token(
        1,
        String::from("MOVE"),
        String::from("MV"),
        String::from("uri"),
        9,
    );
    assert_eq!(t.authority, 1);
    assert_eq!(t.name, "MOVE");
    assert_eq!(t.symbol, "MV");
    assert_eq!(t.uri, "uri");
    assert_eq!(t.decimals, 9);
    assert_eq!(t.total_supply, 0);
    assert_eq!(t.circulating_supply, 0);
    assert!(t.is_move_token);
    assert_eq!(t.last_mint_timestamp, 0);
    assert_eq!(t.mint_cooldown, 3600);
    assert_eq!(t.mint_cap, 0);
}

#[test]
fn governance_token_starts_fully_issued_and_capped() {
    let t = initialize_bodydfi_token(
        1,
        String::from("BodyDFi"),
        String::from("BDF"),
        String::from("uri"),
        9,
        1_000_000,
    );
    assert_eq!(t.total_supply, 1_000_000);
    assert_eq!(t.circulating_supply, 1_000_000);
    assert_eq!(t.mint_cap, 1_000_000);
    assert_eq!(t.mint_cooldown, 0);
    assert!(!t.is_move_token);
}

fn move_mint_without_cooldown() -> bodydfi::token_state::TokenMint {
    let mut t = initialize_move_token(
        1,
        String::from("MOVE"),
        String::from("MV"),
        String::from("uri"),
        9,
    );
    t.mint_cooldown = 0;
    t
}

#[test]
fn reward_multiplier_table() {
    // multipliers 80, 90, 100, 110, 120 over a base of 100
    let expected = [80u64, 90, 100, 110, 120];
    for score in 0..=4u8 {
        let mut t = move_mint_without_cooldown();
        let (minted, ev) = reward_data_provider(&mut t, 5, 100, score, 10).unwrap();
        assert_eq!(minted, expected[score as usize]);
        assert_eq!(t.circulating_supply, expected[score as usize]);
        assert_eq!(t.last_mint_timestamp, 10);
        assert_eq!(ev.provider, 5);
        assert_eq!(ev.amount, minted);
        assert_eq!(ev.data_quality_score, score);
        assert_eq!(ev.timestamp, 10);
    }
}

#[test]
fn reward_medium_quality_is_identity_and_low_quality_truncates() {
    let mut t = move_mint_without_cooldown();
    let (minted, _) = reward_data_provider(&mut t, 5, 12345, 2, 10).unwrap();
    assert_eq!(minted, 12345);
    let mut t = move_mint_without_cooldown();
    let (minted, _) = reward_data_provider(&mut t, 5, 99, 0, 10).unwrap();
    // 99 * 80 / 100 = 79 with truncation
    assert_eq!(minted, 79);
}

#[test]
fn reward_rejects_zero_amount_and_bad_score() {
    let mut t = move_mint_without_cooldown();
    let r = reward_data_provider(&mut t, 5, 0, 2, 10);
    assert_eq!(r.unwrap_err(), BodyDfiError::InvalidRewardAmount);
    let r = reward_data_provider(&mut t, 5, 100, 5, 10);
    assert_eq!(r.unwrap_err(), BodyDfiError::InvalidDataQualityScore);
    assert_eq!(t.circulating_supply, 0);
}

#[test]
fn reward_rejects_the_governance_token() {
    let mut t = initialize_bodydfi_token(
        1,
        String::from("BodyDFi"),
        String::from("BDF"),
        String::from("uri"),
        9,
        1_000_000,
    );
    let r = reward_data_provider(&mut t, 5, 100, 2, 10);
    assert_eq!(r.unwrap_err(), BodyDfiError::InvalidMint);
}

#[test]
fn reward_within_cooldown_always_fails() {
    let mut t = initialize_move_token(
        1,
        String::from("MOVE"),
        String::from("MV"),
        String::from("uri"),
        9,
    );
    t.last_mint_timestamp = 1000;
    let r = reward_data_provider(&mut t, 5, 100, 2, 4599);
    assert_eq!(r.unwrap_err(), BodyDfiError::CooldownPeriodActive);
    assert_eq!(t.last_mint_timestamp, 1000);
    // exactly at the end of the window the mint goes through
    let (minted, _) = reward_data_provider(&mut t, 5, 100, 2, 4600).unwrap();
    assert_eq!(minted, 100);
    assert_eq!(t.last_mint_timestamp, 4600);
}

#[test]
fn reward_rejects_passing_the_cap_and_leaves_supply_unchanged() {
    // mint_cap=1000, circulating=950, base 100 at score 2 would reach 1050
    let mut t = move_mint_without_cooldown();
    t.mint_cap = 1000;
    t.circulating_supply = 950;
    let r = reward_data_provider(&mut t, 5, 100, 2, 10);
    assert_eq!(r.unwrap_err(), BodyDfiError::MintingCapExceeded);
    assert_eq!(t.circulating_supply, 950);
    // a mint that lands exactly on the cap is allowed
    let (minted, _) = reward_data_provider(&mut t, 5, 50, 2, 10).unwrap();
    assert_eq!(minted, 50);
    assert_eq!(t.circulating_supply, 1000);
}

#[test]
fn reward_rejects_overflowing_supply() {
    let mut t = move_mint_without_cooldown();
    t.circulating_supply = u64::MAX;
    let r = reward_data_provider(&mut t, 5, 100, 2, 10);
    assert_eq!(r.unwrap_err(), BodyDfiError::MintingCapExceeded);
    assert_eq!(t.circulating_supply, u64::MAX);
}

#[test]
fn reward_rejects_overflowing_multiplier_math() {
    let mut t = move_mint_without_cooldown();
    let r = reward_data_provider(&mut t, 5, u64::MAX, 4, 10);
    assert_eq!(r.unwrap_err(), BodyDfiError::ArithmeticOverflow);
}

#[test]
fn error_messages_name_the_failure() {
    assert_eq!(
        BodyDfiError::DataSubmissionRateLimitExceeded.message(),
        "Data submission rate limit exceeded"
    );
    assert_eq!(BodyDfiError::MintingCapExceeded.message(), "Minting cap exceeded");
    assert_eq!(BodyDfiError::InvalidDeviceType.message(), "Invalid device type");
}
