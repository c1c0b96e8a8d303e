use amm::instructions::claim_fee::DISCRIMINATOR_LEN;
use amm::{Admin, AMMErrors, ChangeAdmin, ClaimFee, Initialize, InitializeAdmin, InitializeAdminBumps, Party, Payment, Pubkey};

fn key(b: u8) -> Pubkey {
    Pubkey::new_from_array([b; 32])
}

fn fresh_admin() -> Admin {
    Admin { admin: key(0), is_initialized: false, bump: 0, vault_bump: 0 }
}

#[test]
fn keys_compare_by_bytes() {
    let mut bytes = [9u8; 32];
    assert!(key(9).key_eq(&Pubkey::new_from_array(bytes)));
    bytes[31] = 8;
    assert!(!key(9).key_eq(&Pubkey::new_from_array(bytes)));
    bytes[31] = 9;
    bytes[0] = 0;
    assert!(!key(9).key_eq(&Pubkey::new_from_array(bytes)));
}

#[test]
fn init_admin_makes_signer_admin_and_funds_vault() {
    let mut ix = InitializeAdmin { signer: key(4), admin: fresh_admin() };
    let bumps = InitializeAdminBumps { admin: 255, admin_vault: 254 };
    let pay = ix.init_admin(&bumps, 890_880).unwrap();
    assert_eq!(pay, Payment::Lamports { from: Party::Signer, to: Party::AdminVault, amount: 890_880 });
    assert_eq!(ix.admin, Admin { admin: key(4), is_initialized: true, bump: 255, vault_bump: 254 });
}

#[test]
fn init_admin_twice_is_refused() {
    let mut ix = InitializeAdmin { signer: key(4), admin: fresh_admin() };
    let bumps = InitializeAdminBumps { admin: 255, admin_vault: 254 };
    ix.init_admin(&bumps, 1).unwrap();
    let mut again = InitializeAdmin { signer: key(6), admin: ix.admin };
    let before = again;
    assert_eq!(again.init_admin(&bumps, 1), Err(AMMErrors::AdminNotInitalized));
    assert_eq!(again, before);
    assert_eq!(again.check_init(), Err(AMMErrors::AdminNotInitalized));
}

#[test]
fn change_admin_by_admin_on_uninitialized_record() {
    let mut ix = ChangeAdmin { signer: key(0), new_admin: key(8), admin: fresh_admin() };
    assert_eq!(ix.change_admin(), Ok(()));
    assert_eq!(ix.admin.admin, key(8));
    assert!(!ix.admin.is_initialized);
}

#[test]
fn change_admin_by_stranger_is_refused() {
    let mut ix = ChangeAdmin { signer: key(2), new_admin: key(8), admin: fresh_admin() };
    let before = ix;
    assert_eq!(ix.change_admin(), Err(AMMErrors::NotAuthorizedError));
    assert_eq!(ix, before);
}

#[test]
fn change_admin_after_init_is_refused() {
    let mut init = InitializeAdmin { signer: key(4), admin: fresh_admin() };
    init.init_admin(&InitializeAdminBumps { admin: 1, admin_vault: 2 }, 0).unwrap();
    let mut ix = ChangeAdmin { signer: key(4), new_admin: key(8), admin: init.admin };
    let before = ix;
    assert_eq!(ix.change_admin(), Err(AMMErrors::AdminNotInitalized));
    assert_eq!(ix, before);
}

#[test]
fn claim_pays_all_above_rent_minimum() {
    let admin = Admin { admin: key(4), is_initialized: true, bump: 1, vault_bump: 2 };
    let ix = ClaimFee { signer: key(4), admin };
    assert_eq!(
        ix.claim_fee(5_000_000, 1_190_160),
        Ok(Payment::Lamports { from: Party::AdminVault, to: Party::Signer, amount: 3_809_840 })
    );
    assert_eq!(ix.claim_fee(7, 7), Ok(Payment::Lamports { from: Party::AdminVault, to: Party::Signer, amount: 0 }));
}

#[test]
fn claim_by_stranger_is_refused() {
    let admin = Admin { admin: key(4), is_initialized: true, bump: 1, vault_bump: 2 };
    let ix = ClaimFee { signer: key(5), admin };
    assert_eq!(ix.claim_fee(5_000_000, 1), Err(AMMErrors::NotAuthorizedError));
    assert_eq!(ix.check_claim(), Err(AMMErrors::NotAuthorizedError));
}

#[test]
fn claim_without_admin_is_refused() {
    let ix = ClaimFee { signer: key(0), admin: fresh_admin() };
    assert_eq!(ix.claim_fee(5_000_000, 1), Err(AMMErrors::AdminNotInitalized));
}

#[test]
fn claim_after_init_by_initializer() {
    let mut init = InitializeAdmin { signer: key(4), admin: fresh_admin() };
    init.init_admin(&InitializeAdminBumps { admin: 1, admin_vault: 2 }, 0).unwrap();
    assert_eq!(ClaimFee { signer: key(4), admin: init.admin }.check_claim(), Ok(()));
    assert_eq!(ClaimFee { signer: key(5), admin: init.admin }.check_claim(), Err(AMMErrors::NotAuthorizedError));
}

#[test]
fn admin_account_space_is_43() {
    assert_eq!(ClaimFee::admin_account_space(), 43);
    assert_eq!(DISCRIMINATOR_LEN + Admin::INIT_SPACE, 43);
    assert_eq!(InitializeAdmin::VAULT_SPACE, 0);
    let _ = Initialize {};
}

#[test]
fn error_messages() {
    assert_eq!(AMMErrors::TooManyTokens.message(), "Please enter valid token quantity");
    assert_eq!(AMMErrors::ZeroValueError.message(), "Value cannot be zero");
    assert_eq!(AMMErrors::CPRatioOverflowError.message(), "Please reduce your market cap");
    assert_eq!(AMMErrors::AdminNotInitalized.message(), "Admin not initalized");
    assert_eq!(AMMErrors::NotAuthorizedError.message(), "You are not authorized to execute this instruction");
}
