use vstd::prelude::*;
use crate::events::TradeEvent;
use crate::payments::Payment;
use crate::pubkey::Pubkey;

verus! {

/// What a trade reads of the market's mint.
#[derive(Clone, Copy, Debug, PartialEq, Eq)]
pub struct MintAccount {
    pub key: Pubkey,
    pub decimals: u8,
}

/// The outcome of an accepted trade: the transfers to perform, in order,
/// and the event to announce.
#[derive(Clone, Debug, PartialEq, Eq)]
pub struct TradeReceipt {
    pub payments: Vec<Payment>,
    pub event: TradeEvent,
}

} // verus!
