//! Deterministic ledger core for a wearable-data marketplace.
//!
//! Providers register, submit data under a rate limit, earn a bounded
//! reputation, list data for paid access, and are rewarded with newly minted
//! tokens under a cooldown and a supply cap; token holders govern the platform
//! through weighted proposals. Every operation here is a pure state
//! transition: it receives the current snapshot of the records it touches plus
//! the current time, validates, computes with overflow-checked arithmetic, and
//! either returns the fully updated records together with one descriptive
//! event, or an error and the records unchanged. Storage, identity checks,
//! token transfers and the clock belong to the surrounding runtime.
use vstd::prelude::*;

pub mod data_operations;
pub mod data_state;
pub mod errors;
pub mod governance_operations;
pub mod governance_state;
pub mod marketplace_operations;
pub mod provider_operations;
pub mod reward_operations;
pub mod token_operations;
pub mod token_state;

verus! {

/// Identity of an account held by the surrounding runtime (an owner, buyer,
/// voter or authority). The core never interprets it; it only stores and
/// compares these handles.
pub type AccountId = u64;

} // verus!
