use vstd::prelude::*;
use crate::fees::{lemma_fortieth_bounds, net_of, royalty_of};
use crate::payments::{lamport_flow, lemma_flows_of_four, token_flow, Party, Payment};
use crate::instructions::buy_coin::BuyCoin;
use crate::instructions::change_admin::ChangeAdmin;
use crate::instructions::claim_fee::ClaimFee;
use crate::instructions::initialize_admin::{InitializeAdmin, InitializeAdminBumps};
use crate::instructions::sell_coin::SellCoin;
use crate::pubkey::Pubkey;
use crate::state::errors::AMMErrors;

verus! {

/// The administrator record can be set up only once: after an accepted
/// set-up, a second one is refused, whoever signs it.
pub proof fn lemma_admin_initialized_once(
    first: InitializeAdmin,
    bumps: InitializeAdminBumps,
    second_signer: Pubkey,
)
    requires
        first.init_refusal() is None,
    ensures
        (InitializeAdmin { signer: second_signer, admin: first.initialized_admin(bumps) }).init_refusal()
            == Some(AMMErrors::AdminNotInitalized),
{
}

/// Once the administrator record is set up, every hand-over of the role is
/// refused with `AdminNotInitalized`, whoever signs it and whoever is named.
pub proof fn lemma_change_admin_refused_after_init(
    init: InitializeAdmin,
    bumps: InitializeAdminBumps,
    signer: Pubkey,
    new_admin: Pubkey,
)
    requires
        init.init_refusal() is None,
    ensures
        (ChangeAdmin { signer, new_admin, admin: init.initialized_admin(bumps) }).change_refusal()
            == Some(AMMErrors::AdminNotInitalized),
{
}

/// After an accepted set-up, the one who set it up may claim the fees and
/// nobody else may.
pub proof fn lemma_claim_after_init(init: InitializeAdmin, bumps: InitializeAdminBumps, claimer: Pubkey)
    requires
        init.init_refusal() is None,
    ensures
        (ClaimFee { signer: claimer, admin: init.initialized_admin(bumps) }).claim_refusal() is None
            <==> claimer == init.signer,
        claimer != init.signer ==> (ClaimFee {
            signer: claimer,
            admin: init.initialized_admin(bumps),
        }).claim_refusal() == Some(AMMErrors::NotAuthorizedError),
{
}

/// After an accepted set-up, trades are refused for no reason but their own
/// size: a buy only when it is of zero lamports, a sell only when it is of
/// zero tokens or not less than the market's token counter.
pub proof fn lemma_trades_open_after_init(
    init: InitializeAdmin,
    bumps: InitializeAdminBumps,
    buy: BuyCoin,
    sell: SellCoin,
    amount: u64,
    token_amount: u64,
)
    requires
        init.init_refusal() is None,
        buy.admin == init.initialized_admin(bumps),
        sell.admin == init.initialized_admin(bumps),
    ensures
        buy.buy_refusal(amount) is None <==> amount != 0,
        sell.sell_refusal(token_amount) is None <==> (token_amount != 0 && token_amount < sell.amm.mint_cap),
{
}

/// The market as a sell sees it right after a buy.
pub open spec fn sell_after_buy(buy: BuyCoin, amount: u64, tokens: u64) -> SellCoin {
    let after = buy.after_buy(amount, tokens);
    SellCoin { signer: after.signer, mint: after.mint, amm: after.amm, admin: after.admin }
}

/// Selling back exactly the tokens a buy received restores the market's
/// token counter; its lamport counter ends up higher by what the buy put in
/// and lower by what the sell paid out, and nothing else in the market changes.
pub proof fn lemma_buy_then_sell_back(buy: BuyCoin, amount: u64, tokens: u64, sol_to_send: u64)
    requires
        buy.buy_refusal(amount) is None,
        buy.buy_fits(amount, tokens),
        sell_after_buy(buy, amount, tokens).sell_refusal(tokens) is None,
        sell_after_buy(buy, amount, tokens).sell_fits(tokens, sol_to_send),
    ensures
        ({
            let end = sell_after_buy(buy, amount, tokens).after_sell(tokens, sol_to_send);
            &&& end.amm.mint_cap == buy.amm.mint_cap
            &&& end.amm.sol_cap == buy.amm.sol_cap + net_of(amount) - net_of(sol_to_send)
            &&& end.amm.mint == buy.amm.mint
            &&& end.amm.uri == buy.amm.uri
            &&& end.amm.creator == buy.amm.creator
            &&& end.amm.cp_ratio == buy.amm.cp_ratio
            &&& end.amm.seed == buy.amm.seed
            &&& end.admin == buy.admin
        }),
{
}

/// Each royalty of a trade of `amount` lamports is the floor of a fortieth
/// of it, for every amount, and the net part is what the two royalties leave.
pub proof fn lemma_royalty_is_a_fortieth(amount: u64)
    ensures
        40 * royalty_of(amount) <= amount,
        amount < 40 * royalty_of(amount) + 40,
        net_of(amount) == amount - 2 * royalty_of(amount),
{
    lemma_fortieth_bounds(amount);
}

/// A buy is priced and paid in the units of the market's own mint: the
/// pricing request carries the mint's decimals, and the token transfer out of
/// the reserve is checked against those same decimals, for every mint. The
/// request asks about exactly the lamports that the reserve receives, and the
/// other fields are the market's counters and ratio.
pub proof fn lemma_buy_in_mint_units(buy: BuyCoin, amount: u64, tokens: u64)
    ensures
        buy.spec_buy_quote(amount).decimals == buy.mint.decimals,
        buy.spec_buy_quote(amount).sol_cap == buy.amm.sol_cap,
        buy.spec_buy_quote(amount).tokens_available == buy.amm.mint_cap,
        buy.spec_buy_quote(amount).cp_ratio == buy.amm.cp_ratio,
        40 * (amount - buy.spec_buy_quote(amount).amount) <= 2 * amount,
        2 * amount < 40 * (amount - buy.spec_buy_quote(amount).amount) + 80,
        (amount - buy.spec_buy_quote(amount).amount) % 2 == 0,
        buy.buy_payments(amount, tokens).len() == 4,
        buy.buy_payments(amount, tokens)[3] == (Payment::Tokens {
            from: Party::TokenReserve,
            to: Party::SignerTokenAccount,
            amount: tokens,
            decimals: buy.mint.decimals,
        }),
        lamport_flow(buy.buy_payments(amount, tokens), Party::SolReserve) == buy.spec_buy_quote(amount).amount,
        lamport_flow(buy.buy_payments(amount, tokens), Party::Signer) == -(amount as int),
        token_flow(buy.buy_payments(amount, tokens), Party::SignerTokenAccount) == tokens,
        buy.buy_event(amount, tokens).sol_amount == buy.spec_buy_quote(amount).amount,
        buy.buy_event(amount, tokens).token_amount == tokens,
{
    lemma_fortieth_bounds(amount);
    let ps = buy.buy_payments(amount, tokens);
    lemma_flows_of_four(ps[0], ps[1], ps[2], ps[3], Party::SolReserve);
    lemma_flows_of_four(ps[0], ps[1], ps[2], ps[3], Party::Signer);
    lemma_flows_of_four(ps[0], ps[1], ps[2], ps[3], Party::SignerTokenAccount);
    assert(ps =~= seq![ps[0], ps[1], ps[2], ps[3]]);
}

/// A sell is priced and paid in the units of the market's own mint: the
/// pricing request carries the mint's decimals, and the token transfer into
/// the reserve is checked against those same decimals, for every mint. The
/// request carries exactly the tokens that the reserve receives.
pub proof fn lemma_sell_in_mint_units(sell: SellCoin, token_amount: u64, sol_to_send: u64)
    ensures
        sell.spec_sell_quote(token_amount).decimals == sell.mint.decimals,
        sell.spec_sell_quote(token_amount).sol_cap == sell.amm.sol_cap,
        sell.spec_sell_quote(token_amount).mint_cap == sell.amm.mint_cap,
        sell.spec_sell_quote(token_amount).cp_ratio == sell.amm.cp_ratio,
        sell.spec_sell_quote(token_amount).token_amount == token_amount,
        sell.sell_payments(token_amount, sol_to_send).len() == 4,
        sell.sell_payments(token_amount, sol_to_send)[2] == (Payment::Tokens {
            from: Party::SignerTokenAccount,
            to: Party::TokenReserve,
            amount: token_amount,
            decimals: sell.mint.decimals,
        }),
        token_flow(sell.sell_payments(token_amount, sol_to_send), Party::TokenReserve)
            == sell.spec_sell_quote(token_amount).token_amount,
        40 * (sol_to_send + lamport_flow(sell.sell_payments(token_amount, sol_to_send), Party::SolReserve))
            <= 2 * sol_to_send,
        2 * sol_to_send < 40 * (sol_to_send + lamport_flow(
            sell.sell_payments(token_amount, sol_to_send),
            Party::SolReserve,
        )) + 80,
        sell.sell_event(token_amount, sol_to_send).token_amount == token_amount,
        sell.sell_event(token_amount, sol_to_send).sol_amount == -lamport_flow(
            sell.sell_payments(token_amount, sol_to_send),
            Party::SolReserve,
        ),
{
    lemma_fortieth_bounds(sol_to_send);
    let ps = sell.sell_payments(token_amount, sol_to_send);
    lemma_flows_of_four(ps[0], ps[1], ps[2], ps[3], Party::SolReserve);
    lemma_flows_of_four(ps[0], ps[1], ps[2], ps[3], Party::TokenReserve);
    assert(ps =~= seq![ps[0], ps[1], ps[2], ps[3]]);
}

} // verus!
