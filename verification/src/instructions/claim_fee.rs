use vstd::prelude::*;
use crate::payments::{Party, Payment};
use crate::pubkey::Pubkey;
use crate::state::admin::Admin;
use crate::state::errors::AMMErrors;

verus! {

/// Length of the tag that precedes every program account's fields.
pub const DISCRIMINATOR_LEN: usize = 8;

/// What claiming the collected royalties reads.
#[derive(Clone, Copy, Debug, PartialEq, Eq)]
pub struct ClaimFee {
    pub signer: Pubkey,
    pub admin: Admin,
}

impl ClaimFee {
    /// The error the claim is refused with, if any.
    pub open spec fn claim_refusal(&self) -> Option<AMMErrors> {
        if !self.admin.is_initialized {
            Some(AMMErrors::AdminNotInitalized)
        } else if self.signer != self.admin.admin {
            Some(AMMErrors::NotAuthorizedError)
        } else {
            None
        }
    }

    /// The checks of a claim, in the order the instruction makes them.
    pub fn check_claim(&self) -> (r: Result<(), AMMErrors>)
        ensures
            r is Err <==> self.claim_refusal() is Some,
            r matches Err(e) ==> self.claim_refusal() == Some(e),
            !self.admin.is_initialized ==> r == Err::<(), AMMErrors>(AMMErrors::AdminNotInitalized),
            r is Ok <==> (self.admin.is_initialized && self.signer == self.admin.admin),
            self.admin.is_initialized && self.signer != self.admin.admin ==> r == Err::<(), AMMErrors>(
                AMMErrors::NotAuthorizedError,
            ),
    {
        if !self.admin.is_initialized {
            return Err(AMMErrors::AdminNotInitalized);
        }
        if !self.signer.key_eq(&self.admin.admin) {
            return Err(AMMErrors::NotAuthorizedError);
        }
        Ok(())
    }

    /// The size, in bytes, of the administrator account whose rent-exempt
    /// minimum is kept back from a claim.
    pub fn admin_account_space() -> (n: usize)
        ensures
            n == DISCRIMINATOR_LEN + Admin::INIT_SPACE,
    {
        DISCRIMINATOR_LEN + Admin::INIT_SPACE
    }

    /// Pays the administrator out of the vault: the administrator account's
    /// `admin_lamports` less `rent_minimum`, the rent-exempt minimum of an
    /// account of `admin_account_space()` bytes.
    pub fn claim_fee(&self, admin_lamports: u64, rent_minimum: u64) -> (r: Result<Payment, AMMErrors>)
        requires
            self.claim_refusal() is None ==> rent_minimum <= admin_lamports,
        ensures
            self.claim_refusal() matches Some(e) ==> r == Err::<Payment, AMMErrors>(e),
            self.claim_refusal() is None ==> r == Ok::<Payment, AMMErrors>(
                Payment::Lamports {
                    from: Party::AdminVault,
                    to: Party::Signer,
                    amount: (admin_lamports - rent_minimum) as u64,
                },
            ),
            !self.admin.is_initialized ==> r == Err::<Payment, AMMErrors>(AMMErrors::AdminNotInitalized),
            self.admin.is_initialized && self.signer != self.admin.admin ==> r == Err::<Payment, AMMErrors>(
                AMMErrors::NotAuthorizedError,
            ),
            self.admin.is_initialized && self.signer == self.admin.admin ==> r == Ok::<Payment, AMMErrors>(
                Payment::Lamports { from: Party::AdminVault, to: Party::Signer, amount: (admin_lamports - rent_minimum) as u64 },
            ),
            // only the recorded administrator is ever paid
            r is Ok ==> self.admin.is_initialized && self.signer == self.admin.admin,
    {
        match self.check_claim() {
            Err(e) => {
                return Err(e);
            },
            Ok(()) => {},
        }
        let amount = admin_lamports - rent_minimum;
        Ok(Payment::Lamports { from: Party::AdminVault, to: Party::Signer, amount })
    }
}

} // verus!
