use vstd::prelude::*;
use crate::pubkey::Pubkey;

verus! {

/// The singleton account that records who administers the market.
#[derive(Clone, Copy, Debug, PartialEq, Eq)]
pub struct Admin {
    pub admin: Pubkey,
    pub is_initialized: bool,
    pub bump: u8,
    pub vault_bump: u8,
}

impl Admin {
    /// Serialized size of the account's fields: an address, a flag and two bumps.
    pub const INIT_SPACE: usize = 35;
}

} // verus!
