use vstd::prelude::*;
use crate::pubkey::Pubkey;

verus! {

/// Announced when a market is opened.
#[derive(Clone, Copy, Debug, PartialEq, Eq)]
pub struct AmmInitalized {
    pub mint: Pubkey,
    pub creator: Pubkey,
    pub cp_ratio: u64,
    pub sol_cap: u64,
    pub mint_cap: u64,
}

/// Announced after every buy or sell.
#[derive(Clone, Copy, Debug, PartialEq, Eq)]
pub struct TradeEvent {
    pub user: Pubkey,
    pub sol_amount: u64,
    pub token_amount: u64,
    pub mint: Pubkey,
}

} // verus!
