use vstd::prelude::*;
use crate::pubkey::Pubkey;
use crate::state::admin::Admin;
use crate::state::errors::AMMErrors;

verus! {

/// What handing the administrator role over reads and writes.
#[derive(Clone, Copy, Debug, PartialEq, Eq)]
pub struct ChangeAdmin {
    pub signer: Pubkey,
    pub new_admin: Pubkey,
    pub admin: Admin,
}

impl ChangeAdmin {
    /// The error the hand-over is refused with, if any. The instruction
    /// refuses a record that is already initialized, and any signer other
    /// than the recorded administrator.
    pub open spec fn change_refusal(&self) -> Option<AMMErrors> {
        if self.admin.is_initialized {
            Some(AMMErrors::AdminNotInitalized)
        } else if self.signer != self.admin.admin {
            Some(AMMErrors::NotAuthorizedError)
        } else {
            None
        }
    }

    /// Records `new_admin` as the administrator.
    pub fn change_admin(&mut self) -> (r: Result<(), AMMErrors>)
        ensures
            old(self).change_refusal() matches Some(e) ==> {
                &&& r == Err::<(), AMMErrors>(e)
                &&& *final(self) == *old(self)
            },
            old(self).change_refusal() is None ==> {
                &&& r is Ok
                &&& *final(self) == (ChangeAdmin {
                    admin: Admin { admin: old(self).new_admin, ..old(self).admin },
                    ..*old(self)
                })
            },
            old(self).admin.is_initialized ==> r == Err::<(), AMMErrors>(AMMErrors::AdminNotInitalized),
            !old(self).admin.is_initialized && old(self).signer != old(self).admin.admin ==> r == Err::<(), AMMErrors>(
                AMMErrors::NotAuthorizedError,
            ),
            r is Err ==> *final(self) == *old(self),
            r is Ok ==> final(self).admin.admin == old(self).new_admin && final(self).signer == old(self).signer
                && final(self).new_admin == old(self).new_admin
                && final(self).admin.is_initialized == old(self).admin.is_initialized
                && final(self).admin.bump == old(self).admin.bump
                && final(self).admin.vault_bump == old(self).admin.vault_bump,
            // only the recorded administrator can hand the role over
            r is Ok ==> old(self).signer == old(self).admin.admin,
    {
        if self.admin.is_initialized {
            return Err(AMMErrors::AdminNotInitalized);
        }
        if !self.signer.key_eq(&self.admin.admin) {
            return Err(AMMErrors::NotAuthorizedError);
        }
        self.admin.admin = self.new_admin;
        Ok(())
    }
}

} // verus!
