use bodydfi::data_operations::{submit_data, validate_data};
use bodydfi::errors::BodyDfiError;
use bodydfi::provider_operations::{register_data_provider, update_provider_reputation};

#[test]
fn register_initializes_provider() {
    let (p, ev) = register_data_provider(7, String::from("alice"), 0).unwrap();
    assert_eq!(p.authority, 7);
    assert_eq!(p.user_id, "alice");
    assert_eq!(p.device_type, 0);
    assert_eq!(p.submission_count, 0);
    assert_eq!(p.last_submission, 0);
    assert_eq!(p.total_rewards, 0);
    assert_eq!(p.avg_quality_score, 0);
    assert_eq!(p.reputation_score, 100);
    assert_eq!(ev.authority, 7);
    assert_eq!(ev.user_id, "alice");
    assert_eq!(ev.device_type, 0);
}

#[test]
fn register_rejects_undefined_device_class() {
    let r = register_data_provider(7, String::from("bob"), 3);
    assert_eq!(r.unwrap_err(), BodyDfiError::InvalidDeviceType);
    let r = register_data_provider(7, String::from("bob"), 255);
    assert_eq!(r.unwrap_err(), BodyDfiError::InvalidDeviceType);
}

#[test]
fn register_accepts_every_defined_device_class() {
    for device_type in 0..=2u8 {
        assert!(register_data_provider(1, String::from("x"), device_type).is_ok());
    }
}

#[test]
fn end_to_end_rate_limit_example() {
    // register with class Sensor, submit at t=1000, t=1200 (rejected), t=1300
    let (mut p, _) = register_data_provider(7, String::from("alice"), 0).unwrap();
    let r1 = submit_data(&mut p, String::from("h1"), 0, 900, String::from("m"), 1000);
    assert!(r1.is_ok());
    // the first update runs against count=0, so the reputation stays at 100
    assert_eq!(p.avg_quality_score, 2);
    assert_eq!(p.reputation_score, 100);
    assert_eq!(p.submission_count, 1);
    assert_eq!(p.last_submission, 1000);

    let r2 = submit_data(&mut p, String::from("h2"), 0, 1100, String::from("m"), 1200);
    assert_eq!(r2.unwrap_err(), BodyDfiError::DataSubmissionRateLimitExceeded);
    assert_eq!(p.submission_count, 1);
    assert_eq!(p.last_submission, 1000);

    let r3 = submit_data(&mut p, String::from("h3"), 0, 1250, String::from("m"), 1300);
    assert!(r3.is_ok());
    assert_eq!(p.submission_count, 2);
    assert_eq!(p.last_submission, 1300);
}

#[test]
fn submit_at_exactly_the_window_succeeds() {
    let (mut p, _) = register_data_provider(7, String::from("a"), 1).unwrap();
    p.last_submission = 5000;
    let r = submit_data(&mut p, String::from("h"), 0, 5299, String::from("m"), 5299);
    assert_eq!(r.unwrap_err(), BodyDfiError::DataSubmissionRateLimitExceeded);
    let r = submit_data(&mut p, String::from("h"), 0, 5300, String::from("m"), 5300);
    assert!(r.is_ok());
}

#[test]
fn submit_rejects_bad_type_and_future_timestamp() {
    let (mut p, _) = register_data_provider(7, String::from("a"), 1).unwrap();
    let r = submit_data(&mut p, String::from("h"), 5, 900, String::from("m"), 1000);
    assert_eq!(r.unwrap_err(), BodyDfiError::InvalidDataType);
    let r = submit_data(&mut p, String::from("h"), 4, 1001, String::from("m"), 1000);
    assert_eq!(r.unwrap_err(), BodyDfiError::InvalidTimestamp);
}

#[test]
fn submit_rejects_a_count_that_cannot_grow() {
    let (mut p, _) = register_data_provider(7, String::from("a"), 1).unwrap();
    p.submission_count = u64::MAX;
    p.last_submission = 0;
    let r = submit_data(&mut p, String::from("h"), 0, 400, String::from("m"), 400);
    assert_eq!(r.unwrap_err(), BodyDfiError::ArithmeticOverflow);
    assert_eq!(p.submission_count, u64::MAX);
}

#[test]
fn submit_fills_the_record_and_event() {
    let (mut p, _) = register_data_provider(9, String::from("a"), 2).unwrap();
    let (sub, ev) =
        submit_data(&mut p, String::from("hash9"), 4, 800, String::from("meta"), 1000).unwrap();
    assert_eq!(sub.provider, 9);
    assert_eq!(sub.data_hash, "hash9");
    assert_eq!(sub.data_type, 4);
    assert_eq!(sub.timestamp, 800);
    assert_eq!(sub.metadata, "meta");
    assert_eq!(sub.quality_score, 0);
    assert!(!sub.is_validated);
    assert_eq!(ev.provider, 9);
    assert_eq!(ev.data_hash, "hash9");
    assert_eq!(ev.data_type, 4);
    assert_eq!(ev.timestamp, 800);
}

#[test]
fn validate_assigns_score_and_reruns_the_engine() {
    let (mut p, _) = register_data_provider(9, String::from("a"), 2).unwrap();
    let (mut sub, _) =
        submit_data(&mut p, String::from("h"), 1, 900, String::from("m"), 1000).unwrap();
    // count=1, avg=2 after the submission update
    let r = validate_data(&mut sub, &mut p, 4);
    assert!(r.is_ok());
    assert_eq!(sub.quality_score, 4);
    assert!(sub.is_validated);
    // avg = (2*1 + 4) / 2 = 3; reputation = 2 + 80 + 30 = 112
    assert_eq!(p.avg_quality_score, 3);
    assert_eq!(p.reputation_score, 112);
    assert_eq!(p.submission_count, 1);
}

#[test]
fn validate_rejects_score_of_five() {
    let (mut p, _) = register_data_provider(9, String::from("a"), 2).unwrap();
    let (mut sub, _) =
        submit_data(&mut p, String::from("h"), 1, 900, String::from("m"), 1000).unwrap();
    let before_avg = p.avg_quality_score;
    let r = validate_data(&mut sub, &mut p, 5);
    assert_eq!(r.unwrap_err(), BodyDfiError::InvalidDataQualityScore);
    assert_eq!(sub.quality_score, 0);
    assert!(!sub.is_validated);
    assert_eq!(p.avg_quality_score, before_avg);
}

#[test]
fn reputation_update_exact_truncation() {
    let (mut p, _) = register_data_provider(1, String::from("a"), 0).unwrap();
    p.submission_count = 1;
    p.avg_quality_score = 3;
    // avg = (3*1 + 2) / 2 = 2 with truncation; reputation = 2 + 80 + 20 = 102
    update_provider_reputation(&mut p, 2).unwrap();
    assert_eq!(p.avg_quality_score, 2);
    assert_eq!(p.reputation_score, 102);
}

#[test]
fn reputation_consistency_tiers() {
    // count=9: 18 + 80 + avg*10; count=50: 20 + 20 + ...; count=200: 65 + 10 + ...
    let (mut p, _) = register_data_provider(1, String::from("a"), 0).unwrap();
    p.submission_count = 9;
    p.avg_quality_score = 0;
    update_provider_reputation(&mut p, 0).unwrap();
    assert_eq!(p.reputation_score, 18 + 80);
    p.submission_count = 50;
    p.avg_quality_score = 0;
    update_provider_reputation(&mut p, 0).unwrap();
    assert_eq!(p.reputation_score, 20 + 20 + 80);
    p.submission_count = 200;
    p.avg_quality_score = 0;
    update_provider_reputation(&mut p, 0).unwrap();
    assert_eq!(p.reputation_score, 65 + 10 + 80);
}

#[test]
fn reputation_stays_in_bounds_over_many_updates() {
    let (mut p, _) = register_data_provider(1, String::from("a"), 0).unwrap();
    let mut t: i64 = 0;
    for i in 0..120u64 {
        t += 300;
        let hash = format!("h{}", i);
        let (mut sub, _) = submit_data(&mut p, hash, 0, t, String::from("m"), t).unwrap();
        validate_data(&mut sub, &mut p, 4).unwrap();
        assert!(p.avg_quality_score <= 4);
        assert!(p.reputation_score <= 1000);
    }
}
