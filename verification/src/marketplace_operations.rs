//! Marketplace listings and access purchases.
//!
//! A purchase splits the listing price three ways with integer percentage
//! math over a denominator of 100: 70% to the provider, 15% to the platform
//! and 15% to token holders. By design only the provider's share is handed
//! to the token-transfer primitive; the platform and token-holder fees are
//! computed but their distribution is left to the platform, outside this
//! core.
use crate::data_state::{DataAccess, DataListing, DataProvider, DATA_TYPE_MEDICAL};
use crate::errors::BodyDfiError;
use crate::token_state::TokenTransfer;
use crate::AccountId;
use vstd::prelude::*;

verus! {

/// Share of a purchase kept by the platform, in percent.
pub const PLATFORM_FEE_PERCENTAGE: u64 = 15;

/// Share of a purchase owed to token holders, in percent.
pub const TOKEN_HOLDER_FEE_PERCENTAGE: u64 = 15;

/// Share of a purchase paid to the provider, in percent.
pub const PROVIDER_FEE_PERCENTAGE: u64 = 70;

/// Denominator of the percentage math.
pub const PERCENTAGE_DENOMINATOR: u64 = 100;

/// Platform share of a purchase of `total`, truncated.
pub open spec fn spec_platform_fee(total: int) -> int {
    total * (PLATFORM_FEE_PERCENTAGE as int) / (PERCENTAGE_DENOMINATOR as int)
}

/// Token-holder share of a purchase of `total`, truncated.
pub open spec fn spec_token_holder_fee(total: int) -> int {
    total * (TOKEN_HOLDER_FEE_PERCENTAGE as int) / (PERCENTAGE_DENOMINATOR as int)
}

/// Provider share of a purchase of `total`, truncated.
pub open spec fn spec_provider_amount(total: int) -> int {
    total * (PROVIDER_FEE_PERCENTAGE as int) / (PERCENTAGE_DENOMINATOR as int)
}

/// The error a listing creation is rejected with, or `None` when it is
/// accepted: an empty type set, then a zero price, then a zero period, then
/// any type outside the defined ones.
pub open spec fn listing_rejection(
    data_types: Seq<u8>,
    price_per_access: u64,
    access_period: u64,
) -> Option<BodyDfiError> {
    if data_types.len() == 0 {
        Some(BodyDfiError::InvalidDataType)
    } else if price_per_access == 0 {
        Some(BodyDfiError::InvalidDataListing)
    } else if access_period == 0 {
        Some(BodyDfiError::InvalidDataListing)
    } else if exists|i: int| 0 <= i < data_types.len() && data_types[i] > DATA_TYPE_MEDICAL {
        Some(BodyDfiError::InvalidDataType)
    } else {
        None
    }
}

/// The error a purchase is rejected with, or `None` when it is accepted: an
/// inactive listing, then any checked computation that would overflow (the
/// provider share, the expiry time, the purchase count or the provider's
/// reward total).
pub open spec fn purchase_rejection(
    listing: DataListing,
    provider: DataProvider,
    current_time: i64,
) -> Option<BodyDfiError> {
    if !listing.is_active {
        Some(BodyDfiError::InvalidDataListing)
    } else if listing.price_per_access * PROVIDER_FEE_PERCENTAGE > u64::MAX
        || current_time + listing.access_period > i64::MAX
        || listing.purchase_count == u64::MAX
        || provider.total_rewards + spec_provider_amount(listing.price_per_access as int)
            > u64::MAX {
        Some(BodyDfiError::ArithmeticOverflow)
    } else {
        None
    }
}

/// Event describing a created listing.
#[derive(Debug)]
pub struct DataListingCreatedEvent {
    /// Identity of the provider that created the listing.
    pub provider: AccountId,
    /// Id of the new listing.
    pub listing_id: String,
    /// Price of one access.
    pub price_per_access: u64,
    /// Length of one access in seconds.
    pub access_period: u64,
}

/// Event describing a purchased access.
#[derive(Debug)]
pub struct DataAccessPurchasedEvent {
    /// Identity of the buyer.
    pub buyer: AccountId,
    /// Identity of the provider that owns the listing.
    pub provider: AccountId,
    /// Id of the purchased listing.
    pub listing_id: String,
    /// Full price paid.
    pub amount_paid: u64,
    /// Time at which the purchased access ends.
    pub expires_at: i64,
}

/// Creates a listing of `data_provider`'s data.
///
/// Rejects exactly what `listing_rejection` names, in its order. On success
/// the listing starts active with no purchases, created at `current_time`.
pub fn create_data_listing(
    data_provider: &DataProvider,
    listing_id: String,
    data_types: Vec<u8>,
    price_per_access: u64,
    access_period: u64,
    description: String,
    current_time: i64,
) -> (r: Result<(DataListing, DataListingCreatedEvent), BodyDfiError>)
    ensures
        r is Err <==> listing_rejection(data_types@, price_per_access, access_period) is Some,
        r matches Err(e) ==> Some(e) == listing_rejection(
            data_types@,
            price_per_access,
            access_period,
        ),
        r matches Ok((listing, ev)) ==> {
            &&& listing.provider == data_provider.authority
            &&& listing.listing_id == listing_id
            &&& listing.data_types@ == data_types@
            &&& listing.price_per_access == price_per_access
            &&& listing.access_period == access_period
            &&& listing.description == description
            &&& listing.purchase_count == 0
            &&& listing.created_at == current_time
            &&& listing.is_active
            &&& listing.wf()
            &&& ev.provider == data_provider.authority
            &&& ev.listing_id == listing_id
            &&& ev.price_per_access == price_per_access
            &&& ev.access_period == access_period
        },
{
    if data_types.len() == 0 {
        return Err(BodyDfiError::InvalidDataType);
    }
    if price_per_access == 0 {
        return Err(BodyDfiError::InvalidDataListing);
    }
    if access_period == 0 {
        return Err(BodyDfiError::InvalidDataListing);
    }

    let n = data_types.len();
    for i in 0..n
        invariant
            n == data_types.len(),
            price_per_access > 0,
            access_period > 0,
            forall|j: int| 0 <= j < i ==> data_types@[j] <= DATA_TYPE_MEDICAL,
    {
        if data_types[i] > DATA_TYPE_MEDICAL {
            proof {
                assert(exists|k: int|
                    0 <= k < data_types@.len() && data_types@[k] > DATA_TYPE_MEDICAL);
            }
            return Err(BodyDfiError::InvalidDataType);
        }
    }

    let event = DataListingCreatedEvent {
        provider: data_provider.authority,
        listing_id: listing_id.clone(),
        price_per_access,
        access_period,
    };
    let data_listing = DataListing {
        provider: data_provider.authority,
        listing_id,
        data_types,
        price_per_access,
        access_period,
        description,
        purchase_count: 0,
        created_at: current_time,
        is_active: true,
    };
    Ok((data_listing, event))
}

/// Purchases one access to `data_listing` for `buyer`.
///
/// Fails with `InvalidDataListing` exactly when the listing is inactive, and
/// with `ArithmeticOverflow` when a checked computation cannot fit; then both
/// records are untouched. On success the grant covers exactly one access
/// period from `current_time`, the buyer owes the full price, the provider's
/// 70% share is returned as a transfer request for the runtime to perform,
/// the listing counts one more purchase, and the provider's reward total
/// grows by the transferred share.
pub fn purchase_data_access(
    buyer: AccountId,
    data_listing: &mut DataListing,
    data_provider: &mut DataProvider,
    current_time: i64,
) -> (r: Result<(DataAccess, TokenTransfer, DataAccessPurchasedEvent), BodyDfiError>)
    requires
        old(data_listing).wf(),
    ensures
        r is Err <==> purchase_rejection(*old(data_listing), *old(data_provider), current_time)
            is Some,
        r matches Err(e) ==> Some(e) == purchase_rejection(
            *old(data_listing),
            *old(data_provider),
            current_time,
        ) && *final(data_listing) == *old(data_listing)
            && *final(data_provider) == *old(data_provider),
        r matches Ok((grant, transfer, ev)) ==> {
            &&& grant.buyer == buyer
            &&& grant.listing_id == old(data_listing).listing_id
            &&& grant.purchased_at == current_time
            &&& grant.expires_at == current_time + old(data_listing).access_period
            &&& grant.expires_at - grant.purchased_at == old(data_listing).access_period
            &&& grant.amount_paid == old(data_listing).price_per_access
            &&& grant.is_valid
            &&& grant.wf()
            &&& transfer.from == buyer
            &&& transfer.to == old(data_provider).authority
            &&& transfer.amount == spec_provider_amount(old(data_listing).price_per_access as int)
            &&& *final(data_listing) == (DataListing {
                purchase_count: (old(data_listing).purchase_count + 1) as u64,
                ..*old(data_listing)
            })
            &&& *final(data_provider) == (DataProvider {
                total_rewards: (old(data_provider).total_rewards + transfer.amount) as u64,
                ..*old(data_provider)
            })
            &&& ev.buyer == buyer
            &&& ev.provider == old(data_provider).authority
            &&& ev.listing_id == old(data_listing).listing_id
            &&& ev.amount_paid == old(data_listing).price_per_access
            &&& ev.expires_at == grant.expires_at
            &&& final(data_listing).wf()
            &&& (old(data_provider).wf() ==> final(data_provider).wf())
        },
{
    if !data_listing.is_active {
        return Err(BodyDfiError::InvalidDataListing);
    }

    // Three-way split of the full price, with truncating percentage math.
    let total_amount = data_listing.price_per_access;
    let platform_fee = match total_amount.checked_mul(PLATFORM_FEE_PERCENTAGE) {
        Some(x) => x / PERCENTAGE_DENOMINATOR,
        None => {
            return Err(BodyDfiError::ArithmeticOverflow);
        },
    };
    let token_holder_fee = match total_amount.checked_mul(TOKEN_HOLDER_FEE_PERCENTAGE) {
        Some(x) => x / PERCENTAGE_DENOMINATOR,
        None => {
            return Err(BodyDfiError::ArithmeticOverflow);
        },
    };
    let provider_amount = match total_amount.checked_mul(PROVIDER_FEE_PERCENTAGE) {
        Some(x) => x / PERCENTAGE_DENOMINATOR,
        None => {
            return Err(BodyDfiError::ArithmeticOverflow);
        },
    };
    let expires_at = match current_time.checked_add_unsigned(data_listing.access_period) {
        Some(x) => x,
        None => {
            return Err(BodyDfiError::ArithmeticOverflow);
        },
    };
    let new_purchase_count = match data_listing.purchase_count.checked_add(1) {
        Some(x) => x,
        None => {
            return Err(BodyDfiError::ArithmeticOverflow);
        },
    };
    let new_total_rewards = match data_provider.total_rewards.checked_add(provider_amount) {
        Some(x) => x,
        None => {
            return Err(BodyDfiError::ArithmeticOverflow);
        },
    };

    // The platform and token-holder fees are computed but not handed to any
    // destination; distributing them is left to the platform.
    let _ = platform_fee;
    let _ = token_holder_fee;

    let transfer = TokenTransfer { from: buyer, to: data_provider.authority, amount: provider_amount };
    let data_access = DataAccess {
        buyer,
        listing_id: data_listing.listing_id.clone(),
        purchased_at: current_time,
        expires_at,
        amount_paid: total_amount,
        is_valid: true,
    };
    let event = DataAccessPurchasedEvent {
        buyer,
        provider: data_provider.authority,
        listing_id: data_listing.listing_id.clone(),
        amount_paid: total_amount,
        expires_at,
    };

    data_listing.purchase_count = new_purchase_count;
    data_provider.total_rewards = new_total_rewards;

    Ok((data_access, transfer, event))
}

} // verus!
