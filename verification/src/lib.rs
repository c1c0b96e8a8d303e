//! Verified core of a bonding-curve token market on Solana: the account
//! models, the checks that every instruction performs, the fee split and the
//! reserve book-keeping of trades. The on-chain glue that moves lamports and
//! tokens runs the payment plans that these functions return.

pub mod pubkey;
pub mod state;
pub mod payments;
pub mod fees;
pub mod events;
pub mod instructions;
pub mod laws;

pub use crate::events::{AmmInitalized, TradeEvent};
pub use crate::instructions::buy_coin::{BuyCoin, BuyQuote};
pub use crate::instructions::change_admin::ChangeAdmin;
pub use crate::instructions::claim_fee::ClaimFee;
pub use crate::instructions::initialize_admin::{InitializeAdmin, InitializeAdminBumps};
pub use crate::instructions::sell_coin::{SellCoin, SellQuote};
pub use crate::instructions::trade::{MintAccount, TradeReceipt};
pub use crate::instructions::Initialize;
pub use crate::payments::{Party, Payment};
pub use crate::pubkey::Pubkey;
pub use crate::state::admin::Admin;
pub use crate::state::amm::AMM;
pub use crate::state::errors::AMMErrors;
pub use crate::state::token_params::InitTokenParams;
