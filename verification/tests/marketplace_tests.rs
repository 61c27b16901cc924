use bodydfi::data_state::DataProvider;
use bodydfi::errors::BodyDfiError;
use bodydfi::marketplace_operations::{create_data_listing, purchase_data_access};

fn provider(authority: u64) -> DataProvider {
    DataProvider {
        authority,
        user_id: String::from("seller"),
        device_type: 0,
        submission_count: 0,
        last_submission: 0,
        total_rewards: 0,
        avg_quality_score: 0,
        reputation_score: 100,
    }
}

#[test]
fn create_listing_initializes_record() {
    let p = provider(11);
    let (listing, ev) = create_data_listing(
        &p,
        String::from("l1"),
        vec![0, 2, 4],
        50,
        3600,
        String::from("gait data"),
        1234,
    )
    .unwrap();
    assert_eq!(listing.provider, 11);
    assert_eq!(listing.listing_id, "l1");
    assert_eq!(listing.data_types, vec![0, 2, 4]);
    assert_eq!(listing.price_per_access, 50);
    assert_eq!(listing.access_period, 3600);
    assert_eq!(listing.description, "gait data");
    assert_eq!(listing.purchase_count, 0);
    assert_eq!(listing.created_at, 1234);
    assert!(listing.is_active);
    assert_eq!(ev.provider, 11);
    assert_eq!(ev.listing_id, "l1");
    assert_eq!(ev.price_per_access, 50);
    assert_eq!(ev.access_period, 3600);
}

#[test]
fn create_listing_rejects_empty_type_set() {
    let p = provider(11);
    let r = create_data_listing(&p, String::from("l"), vec![], 50, 3600, String::new(), 0);
    assert_eq!(r.unwrap_err(), BodyDfiError::InvalidDataType);
}

#[test]
fn create_listing_rejects_zero_price_and_zero_period() {
    let p = provider(11);
    let r = create_data_listing(&p, String::from("l"), vec![0], 0, 3600, String::new(), 0);
    assert_eq!(r.unwrap_err(), BodyDfiError::InvalidDataListing);
    let r = create_data_listing(&p, String::from("l"), vec![0], 50, 0, String::new(), 0);
    assert_eq!(r.unwrap_err(), BodyDfiError::InvalidDataListing);
}

#[test]
fn create_listing_rejects_undefined_data_type() {
    let p = provider(11);
    let r = create_data_listing(&p, String::from("l"), vec![0, 5], 50, 3600, String::new(), 0);
    assert_eq!(r.unwrap_err(), BodyDfiError::InvalidDataType);
}

#[test]
fn purchase_splits_the_price_and_grants_one_period() {
    let mut p = provider(11);
    let (mut listing, _) = create_data_listing(
        &p,
        String::from("l1"),
        vec![1],
        1000,
        600,
        String::new(),
        0,
    )
    .unwrap();
    let (grant, transfer, ev) = purchase_data_access(42, &mut listing, &mut p, 5000).unwrap();
    // provider share is 70% of the full price
    assert_eq!(transfer.amount, 700);
    assert_eq!(transfer.from, 42);
    assert_eq!(transfer.to, 11);
    assert_eq!(grant.buyer, 42);
    assert_eq!(grant.listing_id, "l1");
    assert_eq!(grant.purchased_at, 5000);
    assert_eq!(grant.expires_at - grant.purchased_at, 600);
    assert_eq!(grant.amount_paid, 1000);
    assert!(grant.is_valid);
    assert_eq!(listing.purchase_count, 1);
    assert_eq!(p.total_rewards, 700);
    assert_eq!(ev.buyer, 42);
    assert_eq!(ev.provider, 11);
    assert_eq!(ev.amount_paid, 1000);
    assert_eq!(ev.expires_at, 5600);
}

#[test]
fn purchase_truncates_odd_prices() {
    let mut p = provider(11);
    let (mut listing, _) =
        create_data_listing(&p, String::from("l"), vec![1], 999, 600, String::new(), 0).unwrap();
    let (grant, transfer, _) = purchase_data_access(42, &mut listing, &mut p, 0).unwrap();
    // 999 * 70 / 100 = 699 with truncation; the buyer still owes the full price
    assert_eq!(transfer.amount, 699);
    assert_eq!(grant.amount_paid, 999);
}

#[test]
fn purchase_rejects_inactive_listing() {
    let mut p = provider(11);
    let (mut listing, _) =
        create_data_listing(&p, String::from("l"), vec![1], 50, 600, String::new(), 0).unwrap();
    listing.is_active = false;
    let r = purchase_data_access(42, &mut listing, &mut p, 0);
    assert_eq!(r.unwrap_err(), BodyDfiError::InvalidDataListing);
    assert_eq!(listing.purchase_count, 0);
    assert_eq!(p.total_rewards, 0);
}

#[test]
fn purchase_rejects_overflowing_price_math() {
    let mut p = provider(11);
    let (mut listing, _) = create_data_listing(
        &p,
        String::from("l"),
        vec![1],
        u64::MAX,
        600,
        String::new(),
        0,
    )
    .unwrap();
    let r = purchase_data_access(42, &mut listing, &mut p, 0);
    assert_eq!(r.unwrap_err(), BodyDfiError::ArithmeticOverflow);
    assert_eq!(listing.purchase_count, 0);
}

#[test]
fn purchase_rejects_unrepresentable_expiry() {
    let mut p = provider(11);
    let (mut listing, _) =
        create_data_listing(&p, String::from("l"), vec![1], 50, 600, String::new(), 0).unwrap();
    let r = purchase_data_access(42, &mut listing, &mut p, i64::MAX);
    assert_eq!(r.unwrap_err(), BodyDfiError::ArithmeticOverflow);
}
