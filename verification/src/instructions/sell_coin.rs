use vstd::prelude::*;
use crate::events::TradeEvent;
use crate::fees::{net_of, royalty_of, split_royalty};
use crate::instructions::trade::{MintAccount, TradeReceipt};
use crate::payments::{lamport_flow, lemma_flows_of_four, token_flow, Party, Payment};
use crate::pubkey::Pubkey;
use crate::state::admin::Admin;
use crate::state::amm::AMM;
use crate::state::errors::AMMErrors;

verus! {

/// The arguments of the pricing curve for a sell: how many lamports
/// `token_amount` tokens fetch from a market holding `sol_cap` lamports
/// against `mint_cap` tokens.
#[derive(Clone, Copy, Debug, PartialEq, Eq)]
pub struct SellQuote {
    pub sol_cap: u64,
    pub mint_cap: u64,
    pub token_amount: u64,
    pub cp_ratio: u64,
    pub decimals: u8,
}

/// What a sell reads and writes: the signer, the mint, the market and the
/// administrator record.
#[derive(Clone, Debug, PartialEq, Eq)]
pub struct SellCoin {
    pub signer: Pubkey,
    pub mint: MintAccount,
    pub amm: AMM,
    pub admin: Admin,
}

impl SellCoin {
    /// The error a sell of `token_amount` tokens is refused with, if any.
    pub open spec fn sell_refusal(&self, token_amount: u64) -> Option<AMMErrors> {
        if token_amount == 0 {
            Some(AMMErrors::ZeroValueError)
        } else if !(token_amount < self.amm.mint_cap) {
            Some(AMMErrors::TooManyTokens)
        } else if !self.admin.is_initialized {
            Some(AMMErrors::AdminNotInitalized)
        } else {
            None
        }
    }

    /// The pricing request of a sell of `token_amount` tokens.
    pub open spec fn spec_sell_quote(&self, token_amount: u64) -> SellQuote {
        SellQuote {
            sol_cap: self.amm.sol_cap,
            mint_cap: self.amm.mint_cap,
            token_amount,
            cp_ratio: self.amm.cp_ratio,
            decimals: self.mint.decimals,
        }
    }

    /// The reserve counters can absorb the sell without overflow or underflow,
    /// `sol_to_send` being the curve's price before royalties.
    pub open spec fn sell_fits(&self, token_amount: u64, sol_to_send: u64) -> bool {
        &&& net_of(sol_to_send) <= self.amm.sol_cap
        &&& self.amm.mint_cap + token_amount <= u64::MAX
    }

    /// The transfers of an accepted sell, in order: both royalties (paid by
    /// the signer), the tokens into the reserve, then the lamports out of it.
    pub open spec fn sell_payments(&self, token_amount: u64, sol_to_send: u64) -> Seq<Payment> {
        seq![
            Payment::Lamports { from: Party::Signer, to: Party::Creator, amount: royalty_of(sol_to_send) },
            Payment::Lamports { from: Party::Signer, to: Party::AdminVault, amount: royalty_of(sol_to_send) },
            Payment::Tokens {
                from: Party::SignerTokenAccount,
                to: Party::TokenReserve,
                amount: token_amount,
                decimals: self.mint.decimals,
            },
            Payment::Lamports { from: Party::SolReserve, to: Party::Signer, amount: net_of(sol_to_send) },
        ]
    }

    /// The event of an accepted sell.
    pub open spec fn sell_event(&self, token_amount: u64, sol_to_send: u64) -> TradeEvent {
        TradeEvent {
            user: self.signer,
            sol_amount: net_of(sol_to_send),
            token_amount,
            mint: self.mint.key,
        }
    }

    /// The accounts after an accepted sell: the lamport counter shrinks by
    /// what leaves the reserve and the token counter grows by the tokens sold.
    pub open spec fn after_sell(&self, token_amount: u64, sol_to_send: u64) -> SellCoin {
        SellCoin {
            amm: AMM {
                sol_cap: (self.amm.sol_cap - net_of(sol_to_send)) as u64,
                mint_cap: (self.amm.mint_cap + token_amount) as u64,
                ..self.amm
            },
            ..*self
        }
    }

    /// The checks of a sell, in the order the instruction makes them.
    pub fn check_sell(&self, token_amount: u64) -> (r: Result<(), AMMErrors>)
        ensures
            r is Err <==> self.sell_refusal(token_amount) is Some,
            r matches Err(e) ==> self.sell_refusal(token_amount) == Some(e),
            token_amount == 0 ==> r == Err::<(), AMMErrors>(AMMErrors::ZeroValueError),
            token_amount != 0 && token_amount >= self.amm.mint_cap ==> r == Err::<(), AMMErrors>(AMMErrors::TooManyTokens),
            token_amount != 0 && token_amount < self.amm.mint_cap && !self.admin.is_initialized
                ==> r == Err::<(), AMMErrors>(AMMErrors::AdminNotInitalized),
            r is Ok <==> (token_amount != 0 && token_amount < self.amm.mint_cap && self.admin.is_initialized),
    {
        if token_amount == 0 {
            return Err(AMMErrors::ZeroValueError);
        }
        if !(token_amount < self.amm.mint_cap) {
            return Err(AMMErrors::TooManyTokens);
        }
        if !self.admin.is_initialized {
            return Err(AMMErrors::AdminNotInitalized);
        }
        Ok(())
    }

    /// The pricing request for a sell of `token_amount` tokens.
    pub fn sell_quote(&self, token_amount: u64) -> (q: SellQuote)
        ensures
            q == self.spec_sell_quote(token_amount),
            q.sol_cap == self.amm.sol_cap,
            q.mint_cap == self.amm.mint_cap,
            q.token_amount == token_amount,
            q.cp_ratio == self.amm.cp_ratio,
            q.decimals == self.mint.decimals,
    {
        SellQuote {
            sol_cap: self.amm.sol_cap,
            mint_cap: self.amm.mint_cap,
            token_amount,
            cp_ratio: self.amm.cp_ratio,
            decimals: self.mint.decimals,
        }
    }

    /// Sells `token_amount` tokens, `sol_to_send` being what the pricing
    /// curve gives for `sell_quote(token_amount)`. The signer pays both
    /// royalties on that price and receives the rest from the reserve. On
    /// success the market's counters move by exactly what the returned
    /// transfers move in and out of its reserves; on refusal nothing changes.
    pub fn sell_coin(&mut self, token_amount: u64, sol_to_send: u64) -> (r: Result<TradeReceipt, AMMErrors>)
        requires
            old(self).sell_refusal(token_amount) is None ==> old(self).sell_fits(token_amount, sol_to_send),
        ensures
            old(self).sell_refusal(token_amount) matches Some(e) ==> {
                &&& r == Err::<TradeReceipt, AMMErrors>(e)
                &&& *final(self) == *old(self)
            },
            old(self).sell_refusal(token_amount) is None ==> {
                &&& r matches Ok(receipt)
                &&& receipt.payments@ == old(self).sell_payments(token_amount, sol_to_send)
                &&& receipt.event == old(self).sell_event(token_amount, sol_to_send)
                &&& *final(self) == old(self).after_sell(token_amount, sol_to_send)
            },
            token_amount == 0 ==> r == Err::<TradeReceipt, AMMErrors>(AMMErrors::ZeroValueError),
            token_amount != 0 && token_amount >= old(self).amm.mint_cap ==> r == Err::<TradeReceipt, AMMErrors>(
                AMMErrors::TooManyTokens,
            ),
            token_amount != 0 && token_amount < old(self).amm.mint_cap && !old(self).admin.is_initialized
                ==> r == Err::<TradeReceipt, AMMErrors>(AMMErrors::AdminNotInitalized),
            token_amount != 0 && token_amount < old(self).amm.mint_cap && old(self).admin.is_initialized
                ==> r is Ok,
            r is Err ==> *final(self) == *old(self),
            r matches Ok(receipt) ==> {
                &&& final(self).signer == old(self).signer
                &&& final(self).mint == old(self).mint
                &&& final(self).admin == old(self).admin
                &&& final(self).amm.mint == old(self).amm.mint
                &&& final(self).amm.uri == old(self).amm.uri
                &&& final(self).amm.creator == old(self).amm.creator
                &&& final(self).amm.cp_ratio == old(self).amm.cp_ratio
                &&& final(self).amm.seed == old(self).amm.seed
                &&& final(self).amm.sol_reserve_bump == old(self).amm.sol_reserve_bump
                &&& final(self).amm.amm_bump == old(self).amm.amm_bump
                &&& final(self).amm.mint_bump == old(self).amm.mint_bump
                &&& receipt.payments@.len() == 4
                &&& receipt.payments@[0] == Payment::Lamports {
                    from: Party::Signer,
                    to: Party::Creator,
                    amount: sol_to_send / 40,
                }
                &&& receipt.payments@[1] == Payment::Lamports {
                    from: Party::Signer,
                    to: Party::AdminVault,
                    amount: sol_to_send / 40,
                }
                &&& receipt.payments@[2] == Payment::Tokens {
                    from: Party::SignerTokenAccount,
                    to: Party::TokenReserve,
                    amount: token_amount,
                    decimals: old(self).mint.decimals,
                }
                &&& receipt.payments@[3] == Payment::Lamports {
                    from: Party::SolReserve,
                    to: Party::Signer,
                    amount: (sol_to_send - 2 * (sol_to_send / 40)) as u64,
                }
                &&& receipt.event.user == old(self).signer
                &&& receipt.event.sol_amount == sol_to_send - 2 * (sol_to_send / 40)
                &&& receipt.event.token_amount == token_amount
                &&& receipt.event.mint == old(self).mint.key
                &&& final(self).amm.sol_cap == old(self).amm.sol_cap - (sol_to_send - 2 * (sol_to_send / 40))
                &&& final(self).amm.mint_cap == old(self).amm.mint_cap + token_amount
                // the counters follow the reserves
                &&& final(self).amm.sol_cap == old(self).amm.sol_cap
                    + lamport_flow(receipt.payments@, Party::SolReserve)
                &&& final(self).amm.mint_cap == old(self).amm.mint_cap
                    + token_flow(receipt.payments@, Party::TokenReserve)
                // the seller gives exactly the tokens sold and nets the price less four royalties
                &&& token_flow(receipt.payments@, Party::SignerTokenAccount) == -(token_amount as int)
                &&& lamport_flow(receipt.payments@, Party::Signer) == sol_to_send - 4 * royalty_of(sol_to_send)
                // each royalty holder earns one royalty
                &&& lamport_flow(receipt.payments@, Party::Creator) == royalty_of(sol_to_send)
                &&& lamport_flow(receipt.payments@, Party::AdminVault) == royalty_of(sol_to_send)
            },
    {
        match self.check_sell(token_amount) {
            Err(e) => {
                return Err(e);
            },
            Ok(()) => {},
        }
        let (royalty, net) = split_royalty(sol_to_send);
        proof {
            crate::fees::lemma_fortieth_bounds(sol_to_send);
        }
        let decimals = self.mint.decimals;
        let mut payments: Vec<Payment> = Vec::new();
        payments.push(Payment::Lamports { from: Party::Signer, to: Party::Creator, amount: royalty });
        payments.push(Payment::Lamports { from: Party::Signer, to: Party::AdminVault, amount: royalty });
        payments.push(
            Payment::Tokens {
                from: Party::SignerTokenAccount,
                to: Party::TokenReserve,
                amount: token_amount,
                decimals,
            },
        );
        payments.push(Payment::Lamports { from: Party::SolReserve, to: Party::Signer, amount: net });
        let event = TradeEvent {
            user: self.signer,
            sol_amount: net,
            token_amount,
            mint: self.mint.key,
        };
        self.amm.sol_cap = self.amm.sol_cap - net;
        self.amm.mint_cap = self.amm.mint_cap + token_amount;
        proof {
            let ps = old(self).sell_payments(token_amount, sol_to_send);
            assert(payments@ =~= ps);
            lemma_flows_of_four(ps[0], ps[1], ps[2], ps[3], Party::SolReserve);
            lemma_flows_of_four(ps[0], ps[1], ps[2], ps[3], Party::TokenReserve);
            lemma_flows_of_four(ps[0], ps[1], ps[2], ps[3], Party::Signer);
            lemma_flows_of_four(ps[0], ps[1], ps[2], ps[3], Party::SignerTokenAccount);
            lemma_flows_of_four(ps[0], ps[1], ps[2], ps[3], Party::Creator);
            lemma_flows_of_four(ps[0], ps[1], ps[2], ps[3], Party::AdminVault);
            assert(ps =~= seq![ps[0], ps[1], ps[2], ps[3]]);
        }
        Ok(TradeReceipt { payments, event })
    }
}

} // verus!
