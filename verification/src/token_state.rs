//! Token mint state and the requests this core hands to the runtime's
//! token-transfer primitive.
use crate::AccountId;
use vstd::prelude::*;

verus! {

/// State of one token mint. Created once at initialization and mutated on
/// every reward issuance; the circulating supply never decreases in this
/// core.
#[derive(Clone, Debug)]
pub struct TokenMint {
    /// Identity allowed to drive mints on this state.
    pub authority: AccountId,
    /// Identity of the underlying mint held by the runtime; 0 until the
    /// runtime assigns one.
    pub mint: AccountId,
    /// Token name.
    pub name: String,
    /// Token symbol.
    pub symbol: String,
    /// Metadata location.
    pub uri: String,
    /// Number of decimals of the token.
    pub decimals: u8,
    /// Fixed total supply, or 0 for a dynamically supplied token.
    pub total_supply: u64,
    /// Supply minted so far; at most `mint_cap` when the cap is set.
    pub circulating_supply: u64,
    /// Whether this is the utility token paid out as rewards.
    pub is_move_token: bool,
    /// Time of the last reward mint; 0 before the first one.
    pub last_mint_timestamp: i64,
    /// Minimum seconds between two reward mints.
    pub mint_cooldown: i64,
    /// Maximum cumulative circulating supply; 0 means uncapped.
    pub mint_cap: u64,
}

impl TokenMint {
    /// Invariant that initialization establishes and every mint preserves.
    pub open spec fn wf(self) -> bool {
        self.mint_cap > 0 ==> self.circulating_supply <= self.mint_cap
    }
}

/// A request to move tokens between two holdings. This core computes the
/// request; the runtime's token-transfer primitive performs it.
#[derive(Clone, Debug)]
pub struct TokenTransfer {
    /// Identity the tokens leave.
    pub from: AccountId,
    /// Identity the tokens reach.
    pub to: AccountId,
    /// Number of tokens to move.
    pub amount: u64,
}

} // verus!
