use vstd::prelude::*;
use crate::events::TradeEvent;
use crate::fees::{net_of, royalty_of, split_royalty};
use crate::instructions::trade::{MintAccount, TradeReceipt};
use crate::payments::{lamport_flow, lemma_flows_of_four, token_flow, Party, Payment};
use crate::pubkey::Pubkey;
use crate::state::admin::Admin;
use crate::state::amm::AMM;
use crate::state::errors::AMMErrors;

verus! {

/// The arguments of the pricing curve for a buy: how many tokens
/// `amount` lamports buy from a market holding `sol_cap` lamports against
/// `tokens_available` tokens.
#[derive(Clone, Copy, Debug, PartialEq, Eq)]
pub struct BuyQuote {
    pub amount: u64,
    pub sol_cap: u64,
    pub tokens_available: u64,
    pub cp_ratio: u64,
    pub decimals: u8,
}

/// What a buy reads and writes: the signer, the mint, the market and the
/// administrator record.
#[derive(Clone, Debug, PartialEq, Eq)]
pub struct BuyCoin {
    pub signer: Pubkey,
    pub mint: MintAccount,
    pub amm: AMM,
    pub admin: Admin,
}

impl BuyCoin {
    /// The error a buy of `amount` lamports is refused with, if any.
    pub open spec fn buy_refusal(&self, amount: u64) -> Option<AMMErrors> {
        if amount == 0 {
            Some(AMMErrors::ZeroValueError)
        } else if !self.admin.is_initialized {
            Some(AMMErrors::AdminNotInitalized)
        } else {
            None
        }
    }

    /// The pricing request of a buy of `amount` lamports: the curve is asked
    /// about what is left once both royalties are paid.
    pub open spec fn spec_buy_quote(&self, amount: u64) -> BuyQuote {
        BuyQuote {
            amount: net_of(amount),
            sol_cap: self.amm.sol_cap,
            tokens_available: self.amm.mint_cap,
            cp_ratio: self.amm.cp_ratio,
            decimals: self.mint.decimals,
        }
    }

    /// The reserve counters can absorb the buy without overflow or underflow.
    pub open spec fn buy_fits(&self, amount: u64, tokens_to_send: u64) -> bool {
        &&& self.amm.sol_cap + net_of(amount) <= u64::MAX
        &&& tokens_to_send <= self.amm.mint_cap
    }

    /// The transfers of an accepted buy, in order: both royalties, the
    /// lamports into the reserve, then the tokens out of it.
    pub open spec fn buy_payments(&self, amount: u64, tokens_to_send: u64) -> Seq<Payment> {
        seq![
            Payment::Lamports { from: Party::Signer, to: Party::Creator, amount: royalty_of(amount) },
            Payment::Lamports { from: Party::Signer, to: Party::AdminVault, amount: royalty_of(amount) },
            Payment::Lamports { from: Party::Signer, to: Party::SolReserve, amount: net_of(amount) },
            Payment::Tokens {
                from: Party::TokenReserve,
                to: Party::SignerTokenAccount,
                amount: tokens_to_send,
                decimals: self.mint.decimals,
            },
        ]
    }

    /// The event of an accepted buy.
    pub open spec fn buy_event(&self, amount: u64, tokens_to_send: u64) -> TradeEvent {
        TradeEvent {
            user: self.signer,
            sol_amount: net_of(amount),
            token_amount: tokens_to_send,
            mint: self.mint.key,
        }
    }

    /// The accounts after an accepted buy: the lamport counter grows by the
    /// net amount and the token counter shrinks by the tokens sent.
    pub open spec fn after_buy(&self, amount: u64, tokens_to_send: u64) -> BuyCoin {
        BuyCoin {
            amm: AMM {
                sol_cap: (self.amm.sol_cap + net_of(amount)) as u64,
                mint_cap: (self.amm.mint_cap - tokens_to_send) as u64,
                ..self.amm
            },
            ..*self
        }
    }

    /// The checks of a buy, in the order the instruction makes them.
    pub fn check_buy(&self, amount: u64) -> (r: Result<(), AMMErrors>)
        ensures
            r is Err <==> self.buy_refusal(amount) is Some,
            r matches Err(e) ==> self.buy_refusal(amount) == Some(e),
            amount == 0 ==> r == Err::<(), AMMErrors>(AMMErrors::ZeroValueError),
            amount != 0 && !self.admin.is_initialized ==> r == Err::<(), AMMErrors>(AMMErrors::AdminNotInitalized),
            r is Ok <==> (amount != 0 && self.admin.is_initialized),
    {
        if amount == 0 {
            return Err(AMMErrors::ZeroValueError);
        }
        if !self.admin.is_initialized {
            return Err(AMMErrors::AdminNotInitalized);
        }
        Ok(())
    }

    /// The pricing request for a buy of `amount` lamports.
    pub fn buy_quote(&self, amount: u64) -> (q: BuyQuote)
        ensures
            q == self.spec_buy_quote(amount),
            q.amount == amount - 2 * (amount / 40),
            q.sol_cap == self.amm.sol_cap,
            q.tokens_available == self.amm.mint_cap,
            q.cp_ratio == self.amm.cp_ratio,
            q.decimals == self.mint.decimals,
    {
        let (_, net) = split_royalty(amount);
        BuyQuote {
            amount: net,
            sol_cap: self.amm.sol_cap,
            tokens_available: self.amm.mint_cap,
            cp_ratio: self.amm.cp_ratio,
            decimals: self.mint.decimals,
        }
    }

    /// Buys tokens for `amount` lamports, `tokens_to_send` being what the
    /// pricing curve gives for `buy_quote(amount)`. On success the market's
    /// counters move by exactly what the returned transfers move in and out
    /// of its reserves; on refusal nothing changes.
    pub fn buy_coin(&mut self, amount: u64, tokens_to_send: u64) -> (r: Result<TradeReceipt, AMMErrors>)
        requires
            old(self).buy_refusal(amount) is None ==> old(self).buy_fits(amount, tokens_to_send),
        ensures
            old(self).buy_refusal(amount) matches Some(e) ==> {
                &&& r == Err::<TradeReceipt, AMMErrors>(e)
                &&& *final(self) == *old(self)
            },
            old(self).buy_refusal(amount) is None ==> {
                &&& r matches Ok(receipt)
                &&& receipt.payments@ == old(self).buy_payments(amount, tokens_to_send)
                &&& receipt.event == old(self).buy_event(amount, tokens_to_send)
                &&& *final(self) == old(self).after_buy(amount, tokens_to_send)
            },
            amount == 0 ==> r == Err::<TradeReceipt, AMMErrors>(AMMErrors::ZeroValueError),
            amount != 0 && !old(self).admin.is_initialized ==> r == Err::<TradeReceipt, AMMErrors>(
                AMMErrors::AdminNotInitalized,
            ),
            amount != 0 && old(self).admin.is_initialized ==> r is Ok,
            r is Err ==> *final(self) == *old(self),
            r matches Ok(receipt) ==> {
                &&& final(self).signer == old(self).signer
                &&& final(self).mint == old(self).mint
                &&& final(self).admin == old(self).admin
                &&& final(self).amm.mint == old(self).amm.mint
                &&& final(self).amm.uri == old(self).amm.uri
                &&& final(self).amm.creator == old(self).amm.creator
                &&& final(self).amm.cp_ratio == old(self).amm.cp_ratio
                &&& final(self).amm.seed == old(self).amm.seed
                &&& final(self).amm.sol_reserve_bump == old(self).amm.sol_reserve_bump
                &&& final(self).amm.amm_bump == old(self).amm.amm_bump
                &&& final(self).amm.mint_bump == old(self).amm.mint_bump
                &&& receipt.payments@.len() == 4
                &&& receipt.payments@[0] == Payment::Lamports {
                    from: Party::Signer,
                    to: Party::Creator,
                    amount: amount / 40,
                }
                &&& receipt.payments@[1] == Payment::Lamports {
                    from: Party::Signer,
                    to: Party::AdminVault,
                    amount: amount / 40,
                }
                &&& receipt.payments@[2] == Payment::Lamports {
                    from: Party::Signer,
                    to: Party::SolReserve,
                    amount: (amount - 2 * (amount / 40)) as u64,
                }
                &&& receipt.payments@[3] == Payment::Tokens {
                    from: Party::TokenReserve,
                    to: Party::SignerTokenAccount,
                    amount: tokens_to_send,
                    decimals: old(self).mint.decimals,
                }
                &&& receipt.event.user == old(self).signer
                &&& receipt.event.sol_amount == amount - 2 * (amount / 40)
                &&& receipt.event.token_amount == tokens_to_send
                &&& receipt.event.mint == old(self).mint.key
                &&& final(self).amm.sol_cap == old(self).amm.sol_cap + amount - 2 * (amount / 40)
                &&& final(self).amm.mint_cap == old(self).amm.mint_cap - tokens_to_send
                // the counters follow the reserves
                &&& final(self).amm.sol_cap == old(self).amm.sol_cap
                    + lamport_flow(receipt.payments@, Party::SolReserve)
                &&& final(self).amm.mint_cap == old(self).amm.mint_cap
                    + token_flow(receipt.payments@, Party::TokenReserve)
                // the buyer pays exactly `amount` lamports and receives exactly the tokens sent
                &&& lamport_flow(receipt.payments@, Party::Signer) == -(amount as int)
                &&& token_flow(receipt.payments@, Party::SignerTokenAccount) == tokens_to_send
                // each royalty holder earns one royalty
                &&& lamport_flow(receipt.payments@, Party::Creator) == royalty_of(amount)
                &&& lamport_flow(receipt.payments@, Party::AdminVault) == royalty_of(amount)
            },
    {
        match self.check_buy(amount) {
            Err(e) => {
                return Err(e);
            },
            Ok(()) => {},
        }
        let (royalty, net) = split_royalty(amount);
        proof {
            crate::fees::lemma_fortieth_bounds(amount);
        }
        let decimals = self.mint.decimals;
        let mut payments: Vec<Payment> = Vec::new();
        payments.push(Payment::Lamports { from: Party::Signer, to: Party::Creator, amount: royalty });
        payments.push(Payment::Lamports { from: Party::Signer, to: Party::AdminVault, amount: royalty });
        payments.push(Payment::Lamports { from: Party::Signer, to: Party::SolReserve, amount: net });
        payments.push(
            Payment::Tokens {
                from: Party::TokenReserve,
                to: Party::SignerTokenAccount,
                amount: tokens_to_send,
                decimals,
            },
        );
        let event = TradeEvent {
            user: self.signer,
            sol_amount: net,
            token_amount: tokens_to_send,
            mint: self.mint.key,
        };
        self.amm.sol_cap = self.amm.sol_cap + net;
        self.amm.mint_cap = self.amm.mint_cap - tokens_to_send;
        proof {
            let ps = old(self).buy_payments(amount, tokens_to_send);
            assert(payments@ =~= ps);
            lemma_flows_of_four(ps[0], ps[1], ps[2], ps[3], Party::SolReserve);
            lemma_flows_of_four(ps[0], ps[1], ps[2], ps[3], Party::TokenReserve);
            lemma_flows_of_four(ps[0], ps[1], ps[2], ps[3], Party::Signer);
            lemma_flows_of_four(ps[0], ps[1], ps[2], ps[3], Party::SignerTokenAccount);
            lemma_flows_of_four(ps[0], ps[1], ps[2], ps[3], Party::Creator);
            lemma_flows_of_four(ps[0], ps[1], ps[2], ps[3], Party::AdminVault);
            assert(ps =~= seq![ps[0], ps[1], ps[2], ps[3]]);
        }
        Ok(TradeReceipt { payments, event })
    }
}

} // verus!
