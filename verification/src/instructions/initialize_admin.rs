use vstd::prelude::*;
use crate::payments::{Party, Payment};
use crate::pubkey::Pubkey;
use crate::state::admin::Admin;
use crate::state::errors::AMMErrors;

verus! {

/// The bump seeds found for the administrator record and its vault.
#[derive(Clone, Copy, Debug, PartialEq, Eq)]
pub struct InitializeAdminBumps {
    pub admin: u8,
    pub admin_vault: u8,
}

/// What setting up the administrator record reads and writes.
#[derive(Clone, Copy, Debug, PartialEq, Eq)]
pub struct InitializeAdmin {
    pub signer: Pubkey,
    pub admin: Admin,
}

impl InitializeAdmin {
    /// Size, in bytes, of the vault whose rent-exempt minimum the signer deposits.
    pub const VAULT_SPACE: usize = 0;

    /// The error the set-up is refused with, if any.
    pub open spec fn init_refusal(&self) -> Option<AMMErrors> {
        if self.admin.is_initialized {
            Some(AMMErrors::AdminNotInitalized)
        } else {
            None
        }
    }

    /// The record written by an accepted set-up: the signer administers.
    pub open spec fn initialized_admin(&self, bumps: InitializeAdminBumps) -> Admin {
        Admin {
            admin: self.signer,
            is_initialized: true,
            bump: bumps.admin,
            vault_bump: bumps.admin_vault,
        }
    }

    /// The checks of the set-up.
    pub fn check_init(&self) -> (r: Result<(), AMMErrors>)
        ensures
            r is Err <==> self.init_refusal() is Some,
            r matches Err(e) ==> self.init_refusal() == Some(e),
            r is Ok <==> !self.admin.is_initialized,
    {
        if self.admin.is_initialized {
            return Err(AMMErrors::AdminNotInitalized);
        }
        Ok(())
    }

    /// Makes the signer the administrator; the signer funds the vault with
    /// `vault_rent_minimum`, the rent-exempt minimum of `VAULT_SPACE` bytes.
    pub fn init_admin(&mut self, bumps: &InitializeAdminBumps, vault_rent_minimum: u64) -> (r: Result<Payment, AMMErrors>)
        ensures
            old(self).admin.is_initialized <==> r == Err::<Payment, AMMErrors>(AMMErrors::AdminNotInitalized),
            old(self).init_refusal() matches Some(e) ==> {
                &&& r == Err::<Payment, AMMErrors>(e)
                &&& *final(self) == *old(self)
            },
            old(self).init_refusal() is None ==> {
                &&& r == Ok::<Payment, AMMErrors>(
                    Payment::Lamports { from: Party::Signer, to: Party::AdminVault, amount: vault_rent_minimum },
                )
                &&& final(self).signer == old(self).signer
                &&& final(self).admin.admin == old(self).signer
                &&& final(self).admin.is_initialized
                &&& final(self).admin.bump == bumps.admin
                &&& final(self).admin.vault_bump == bumps.admin_vault
                &&& *final(self) == (InitializeAdmin {
                    admin: old(self).initialized_admin(*bumps),
                    ..*old(self)
                })
            },
    {
        match self.check_init() {
            Err(e) => {
                return Err(e);
            },
            Ok(()) => {},
        }
        self.admin = Admin {
            admin: self.signer,
            is_initialized: true,
            bump: bumps.admin,
            vault_bump: bumps.admin_vault,
        };
        Ok(Payment::Lamports { from: Party::Signer, to: Party::AdminVault, amount: vault_rent_minimum })
    }
}

} // verus!
