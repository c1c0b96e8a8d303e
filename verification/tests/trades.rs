use amm::fees::split_royalty;
use amm::{
    Admin, AMMErrors, BuyCoin, BuyQuote, InitializeAdmin, InitializeAdminBumps, MintAccount, Party, Payment, Pubkey, SellCoin, SellQuote, TradeEvent, AMM,
};

fn key(b: u8) -> Pubkey {
    Pubkey::new_from_array([b; 32])
}

fn market(sol_cap: u64, mint_cap: u64) -> AMM {
    AMM {
        mint: key(7),
        uri: String::from("https://example.org/token.json"),
        creator: key(3),
        cp_ratio: 42,
        sol_cap,
        mint_cap,
        sol_reserve_bump: 250,
        seed: 9,
        amm_bump: 251,
        mint_bump: 252,
    }
}

fn admin(initialized: bool) -> Admin {
    Admin { admin: key(1), is_initialized: initialized, bump: 254, vault_bump: 253 }
}

fn buyer(sol_cap: u64, mint_cap: u64, initialized: bool) -> BuyCoin {
    BuyCoin {
        signer: key(5),
        mint: MintAccount { key: key(7), decimals: 6 },
        amm: market(sol_cap, mint_cap),
        admin: admin(initialized),
    }
}

fn seller(sol_cap: u64, mint_cap: u64, initialized: bool) -> SellCoin {
    SellCoin {
        signer: key(5),
        mint: MintAccount { key: key(7), decimals: 6 },
        amm: market(sol_cap, mint_cap),
        admin: admin(initialized),
    }
}

#[test]
fn royalty_split_of_400() {
    assert_eq!(split_royalty(400), (10, 380));
}

#[test]
fn royalty_split_rounds_down() {
    assert_eq!(split_royalty(79), (1, 77));
    assert_eq!(split_royalty(39), (0, 39));
    assert_eq!(split_royalty(0), (0, 0));
}

#[test]
fn royalty_split_of_max() {
    let (r, n) = split_royalty(u64::MAX);
    assert_eq!(r, u64::MAX / 40);
    assert_eq!(2 * r + n, u64::MAX);
}

#[test]
fn buy_moves_counters_and_pays_everyone() {
    let mut b = buyer(1_000, 1_000_000, true);
    let receipt = b.buy_coin(400, 500).unwrap();
    assert_eq!(
        receipt.payments,
        vec![
            Payment::Lamports { from: Party::Signer, to: Party::Creator, amount: 10 },
            Payment::Lamports { from: Party::Signer, to: Party::AdminVault, amount: 10 },
            Payment::Lamports { from: Party::Signer, to: Party::SolReserve, amount: 380 },
            Payment::Tokens { from: Party::TokenReserve, to: Party::SignerTokenAccount, amount: 500, decimals: 6 },
        ]
    );
    assert_eq!(receipt.event, TradeEvent { user: key(5), sol_amount: 380, token_amount: 500, mint: key(7) });
    assert_eq!(b.amm.sol_cap, 1_380);
    assert_eq!(b.amm.mint_cap, 999_500);
    assert_eq!(b.amm.creator, key(3));
    assert_eq!(b.admin, admin(true));
}

#[test]
fn buy_of_zero_is_refused() {
    let mut b = buyer(1_000, 1_000_000, true);
    let before = b.clone();
    assert_eq!(b.buy_coin(0, 0), Err(AMMErrors::ZeroValueError));
    assert_eq!(b, before);
}

#[test]
fn buy_without_admin_is_refused() {
    let mut b = buyer(1_000, 1_000_000, false);
    let before = b.clone();
    assert_eq!(b.buy_coin(400, 500), Err(AMMErrors::AdminNotInitalized));
    assert_eq!(b, before);
}

#[test]
fn zero_check_comes_before_admin_check_on_buy() {
    let b = buyer(1_000, 1_000_000, false);
    assert_eq!(b.check_buy(0), Err(AMMErrors::ZeroValueError));
    assert_eq!(b.check_buy(1), Err(AMMErrors::AdminNotInitalized));
    assert_eq!(buyer(1, 1, true).check_buy(1), Ok(()));
}

#[test]
fn buy_quote_asks_about_the_net_amount() {
    let b = buyer(1_000, 2_000, true);
    assert_eq!(
        b.buy_quote(400),
        BuyQuote { amount: 380, sol_cap: 1_000, tokens_available: 2_000, cp_ratio: 42, decimals: 6 }
    );
}

#[test]
fn buy_may_empty_the_token_reserve() {
    let mut b = buyer(0, 500, true);
    b.buy_coin(40, 500).unwrap();
    assert_eq!(b.amm.mint_cap, 0);
    assert_eq!(b.amm.sol_cap, 38);
}

#[test]
fn sell_moves_counters_and_pays_everyone() {
    let mut s = seller(10_000, 1_000_000, true);
    let receipt = s.sell_coin(500, 400).unwrap();
    assert_eq!(
        receipt.payments,
        vec![
            Payment::Lamports { from: Party::Signer, to: Party::Creator, amount: 10 },
            Payment::Lamports { from: Party::Signer, to: Party::AdminVault, amount: 10 },
            Payment::Tokens { from: Party::SignerTokenAccount, to: Party::TokenReserve, amount: 500, decimals: 6 },
            Payment::Lamports { from: Party::SolReserve, to: Party::Signer, amount: 380 },
        ]
    );
    assert_eq!(receipt.event, TradeEvent { user: key(5), sol_amount: 380, token_amount: 500, mint: key(7) });
    assert_eq!(s.amm.sol_cap, 9_620);
    assert_eq!(s.amm.mint_cap, 1_000_500);
}

#[test]
fn sell_of_zero_is_refused() {
    let mut s = seller(10_000, 1_000_000, true);
    let before = s.clone();
    assert_eq!(s.sell_coin(0, 0), Err(AMMErrors::ZeroValueError));
    assert_eq!(s, before);
}

#[test]
fn sell_of_whole_reserve_is_refused() {
    let mut s = seller(10_000, 500, true);
    let before = s.clone();
    assert_eq!(s.sell_coin(500, 400), Err(AMMErrors::TooManyTokens));
    assert_eq!(s.sell_coin(501, 400), Err(AMMErrors::TooManyTokens));
    assert_eq!(s, before);
    assert!(s.sell_coin(499, 400).is_ok());
}

#[test]
fn sell_without_admin_is_refused() {
    let mut s = seller(10_000, 1_000_000, false);
    let before = s.clone();
    assert_eq!(s.sell_coin(500, 400), Err(AMMErrors::AdminNotInitalized));
    assert_eq!(s, before);
}

#[test]
fn sell_checks_come_in_order() {
    let s = seller(10_000, 5, false);
    assert_eq!(s.check_sell(0), Err(AMMErrors::ZeroValueError));
    assert_eq!(s.check_sell(5), Err(AMMErrors::TooManyTokens));
    assert_eq!(s.check_sell(4), Err(AMMErrors::AdminNotInitalized));
}

#[test]
fn sell_quote_passes_the_counters() {
    let s = seller(10_000, 2_000, true);
    assert_eq!(
        s.sell_quote(300),
        SellQuote { sol_cap: 10_000, mint_cap: 2_000, token_amount: 300, cp_ratio: 42, decimals: 6 }
    );
}

#[test]
fn sell_royalties_are_paid_by_the_seller() {
    // the seller pays 2 x 25 in royalties and receives 1000 - 50 from the reserve
    let mut s = seller(10_000, 1_000_000, true);
    let receipt = s.sell_coin(7, 1_000).unwrap();
    let mut signer_gain: i128 = 0;
    for p in &receipt.payments {
        if let Payment::Lamports { from, to, amount } = p {
            if *to == Party::Signer {
                signer_gain += *amount as i128;
            }
            if *from == Party::Signer {
                signer_gain -= *amount as i128;
            }
        }
    }
    assert_eq!(signer_gain, 1_000 - 4 * 25);
}

#[test]
fn buy_then_sell_back_restores_token_counter() {
    let b = buyer(1_000, 1_000_000, true);
    let mut after_buy = b.clone();
    after_buy.buy_coin(400, 500).unwrap();
    let mut s = SellCoin { signer: after_buy.signer, mint: after_buy.mint, amm: after_buy.amm.clone(), admin: after_buy.admin };
    s.sell_coin(500, 300).unwrap();
    assert_eq!(s.amm.mint_cap, b.amm.mint_cap);
    assert_eq!(s.amm.sol_cap, 1_000 + 380 - 286);
}

#[test]
fn trades_open_after_init() {
    let mut init = InitializeAdmin { signer: key(1), admin: admin(false) };
    init.init_admin(&InitializeAdminBumps { admin: 254, admin_vault: 253 }, 0).unwrap();
    let mut b = buyer(1_000, 1_000_000, false);
    b.admin = init.admin;
    assert_eq!(b.check_buy(1), Ok(()));
    assert_eq!(b.check_buy(0), Err(AMMErrors::ZeroValueError));
    let mut s = seller(1_000, 10, false);
    s.admin = init.admin;
    assert_eq!(s.check_sell(9), Ok(()));
    assert_eq!(s.check_sell(10), Err(AMMErrors::TooManyTokens));
}
