use vstd::prelude::*;

verus! {

/// What a creator supplies when opening a market.
#[derive(Clone, Debug, PartialEq, Eq)]
pub struct InitTokenParams {
    pub name: String,
    pub seed: u64,
    pub symbol: String,
    pub uri: String,
    pub sol_cap: u64,
    pub mint_cap: u64,
    pub decimals: u8,
}

} // verus!
