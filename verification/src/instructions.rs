pub mod trade;
pub mod buy_coin;
pub mod sell_coin;
pub mod change_admin;
pub mod claim_fee;
pub mod initialize_admin;

use vstd::prelude::*;

verus! {

/// The program's instruction without accounts; it reads and writes nothing.
#[derive(Clone, Copy, Debug, PartialEq, Eq)]
pub struct Initialize {}

} // verus!
