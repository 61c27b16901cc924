//! Records of the data marketplace: providers, submissions, listings and
//! access grants, with their well-formedness invariants.
use crate::AccountId;
use vstd::prelude::*;

verus! {

/// Device class: a basic sensor.
pub const DEVICE_TYPE_SENSOR: u8 = 0;

/// Device class: a professional-grade device.
pub const DEVICE_TYPE_PRO: u8 = 1;

/// Device class: a medical-grade device. Highest defined class.
pub const DEVICE_TYPE_MEDICAL: u8 = 2;

/// Data type: motion data.
pub const DATA_TYPE_MOTION: u8 = 0;

/// Data type: biometric data.
pub const DATA_TYPE_BIOMETRIC: u8 = 1;

/// Data type: pressure data.
pub const DATA_TYPE_PRESSURE: u8 = 2;

/// Data type: muscle-activity data.
pub const DATA_TYPE_MUSCLE: u8 = 3;

/// Data type: medical data. Highest defined type.
pub const DATA_TYPE_MEDICAL: u8 = 4;

/// A registered data provider. Created once on registration, mutated on every
/// submission, validation and reward, never deleted.
#[derive(Clone, Debug)]
pub struct DataProvider {
    /// Identity that owns this provider record.
    pub authority: AccountId,
    /// Unique user id chosen at registration; the runtime keys the record by it.
    pub user_id: String,
    /// Device class, one of the `DEVICE_TYPE_*` constants.
    pub device_type: u8,
    /// Number of accepted submissions.
    pub submission_count: u64,
    /// Time of the last accepted submission; 0 before the first one.
    pub last_submission: i64,
    /// Total tokens earned from purchases of this provider's listings.
    pub total_rewards: u64,
    /// Average quality score over the reputation updates, always in 0..=4.
    pub avg_quality_score: u8,
    /// Reputation score, always in 0..=1000.
    pub reputation_score: u16,
}

impl DataProvider {
    /// Invariant that registration establishes and every operation preserves.
    pub open spec fn wf(self) -> bool {
        &&& self.device_type <= DEVICE_TYPE_MEDICAL
        &&& self.avg_quality_score <= 4
        &&& self.reputation_score <= 1000
    }
}

/// One accepted data submission. The quality score and the validated flag are
/// set once by a trusted validation step; the rest is immutable.
#[derive(Clone, Debug)]
pub struct DataSubmission {
    /// Identity of the provider that submitted the data.
    pub provider: AccountId,
    /// Content hash of the data held off the ledger; the runtime keeps it
    /// globally unique by keying the record with it.
    pub data_hash: String,
    /// Data type, one of the `DATA_TYPE_*` constants.
    pub data_type: u8,
    /// Time at which the data was collected, never after submission time.
    pub timestamp: i64,
    /// Free-form metadata.
    pub metadata: String,
    /// Quality score in 0..=4; 0 until a validator assigns the real one.
    pub quality_score: u8,
    /// Whether a validator has assigned the quality score.
    pub is_validated: bool,
}

impl DataSubmission {
    /// Invariant that submission establishes and validation preserves.
    pub open spec fn wf(self) -> bool {
        &&& self.data_type <= DATA_TYPE_MEDICAL
        &&& self.quality_score <= 4
    }
}

/// A marketplace listing offering data types for paid, time-bounded access.
#[derive(Clone, Debug)]
pub struct DataListing {
    /// Identity of the provider that created the listing.
    pub provider: AccountId,
    /// Unique listing id; the runtime keys the record by it.
    pub listing_id: String,
    /// Data types included in the listing; non-empty, each a defined type.
    pub data_types: Vec<u8>,
    /// Price of one access in tokens, strictly positive.
    pub price_per_access: u64,
    /// Length of one access in seconds, strictly positive.
    pub access_period: u64,
    /// Free-form description of the data offered.
    pub description: String,
    /// Number of purchases of this listing.
    pub purchase_count: u64,
    /// Time at which the listing was created.
    pub created_at: i64,
    /// Whether the listing can currently be purchased.
    pub is_active: bool,
}

impl DataListing {
    /// Invariant that listing creation establishes and purchases preserve.
    pub open spec fn wf(self) -> bool {
        &&& self.data_types.len() > 0
        &&& forall|i: int|
            0 <= i < self.data_types.len() ==> self.data_types[i] <= DATA_TYPE_MEDICAL
        &&& self.price_per_access > 0
        &&& self.access_period > 0
    }
}

/// A grant proving a buyer paid for access to a listing. It expires passively
/// once the current time passes `expires_at`; no operation transitions it.
#[derive(Clone, Debug)]
pub struct DataAccess {
    /// Identity of the buyer.
    pub buyer: AccountId,
    /// Id of the purchased listing.
    pub listing_id: String,
    /// Time of the purchase.
    pub purchased_at: i64,
    /// Time at which the access ends: `purchased_at` plus the listing's
    /// access period.
    pub expires_at: i64,
    /// Tokens paid, the listing's full price per access.
    pub amount_paid: u64,
    /// Whether the grant is valid.
    pub is_valid: bool,
}

impl DataAccess {
    /// Invariant that a purchase establishes: the access window is non-empty.
    pub open spec fn wf(self) -> bool {
        self.expires_at > self.purchased_at
    }
}

} // verus!
