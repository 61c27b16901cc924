//! One-time set-up of the two token mints.
use crate::token_state::TokenMint;
use crate::AccountId;
use vstd::prelude::*;

verus! {

/// Cooldown between reward mints of the utility token, in seconds.
pub const MOVE_TOKEN_MINT_COOLDOWN: i64 = 3600;

/// Sets up the MOVE utility token: dynamically supplied, uncapped, with
/// rewards limited by the one-hour mint cooldown instead of a cap. The
/// runtime creates the underlying mint with nothing issued yet.
pub fn initialize_move_token(
    authority: AccountId,
    name: String,
    symbol: String,
    uri: String,
    decimals: u8,
) -> (t: TokenMint)
    ensures
        t.authority == authority,
        t.mint == 0,
        t.name == name,
        t.symbol == symbol,
        t.uri == uri,
        t.decimals == decimals,
        t.total_supply == 0,
        t.circulating_supply == 0,
        t.is_move_token,
        t.last_mint_timestamp == 0,
        t.mint_cooldown == MOVE_TOKEN_MINT_COOLDOWN,
        t.mint_cap == 0,
        t.wf(),
{
    TokenMint {
        authority,
        mint: 0,
        name,
        symbol,
        uri,
        decimals,
        total_supply: 0,  // dynamic supply for the utility token
        circulating_supply: 0,
        is_move_token: true,
        last_mint_timestamp: 0,
        mint_cooldown: MOVE_TOKEN_MINT_COOLDOWN,
        mint_cap: 0,  // no cap; issuance is limited by the cooldown
    }
}

/// Sets up the BodyDFi governance token: the full supply counts as
/// circulating from the start, the cap equals the total supply, and there is
/// no cooldown. The runtime issues the full supply to the authority's
/// holding.
pub fn initialize_bodydfi_token(
    authority: AccountId,
    name: String,
    symbol: String,
    uri: String,
    decimals: u8,
    total_supply: u64,
) -> (t: TokenMint)
    ensures
        t.authority == authority,
        t.mint == 0,
        t.name == name,
        t.symbol == symbol,
        t.uri == uri,
        t.decimals == decimals,
        t.total_supply == total_supply,
        t.circulating_supply == total_supply,
        !t.is_move_token,
        t.last_mint_timestamp == 0,
        t.mint_cooldown == 0,
        t.mint_cap == total_supply,
        t.wf(),
{
    TokenMint {
        authority,
        mint: 0,
        name,
        symbol,
        uri,
        decimals,
        total_supply,
        circulating_supply: total_supply,  // full supply issued at initialization
        is_move_token: false,
        last_mint_timestamp: 0,
        mint_cooldown: 0,  // no cooldown for the governance token
        mint_cap: total_supply,  // capped at the total supply
    }
}

} // verus!
