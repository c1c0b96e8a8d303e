use vstd::prelude::*;
use crate::pubkey::Pubkey;

verus! {

/// One market: its mint, its creator and the two reserve counters that
/// trades move (`sol_cap` lamports against `mint_cap` tokens).
#[derive(Clone, Debug, PartialEq, Eq)]
pub struct AMM {
    pub mint: Pubkey,
    pub uri: String,
    pub creator: Pubkey,
    pub cp_ratio: u64,
    pub sol_cap: u64,
    pub mint_cap: u64,
    pub sol_reserve_bump: u8,
    pub seed: u64,
    pub amm_bump: u8,
    pub mint_bump: u8,
}

impl AMM {
    /// Longest metadata URI that the account has room for, in bytes.
    pub const URI_MAX_LEN: usize = 70;
}

} // verus!
