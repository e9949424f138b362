use crate::address::Address;
use crate::instruction::{system_program_address, system_program_id};
use anchor_lang::error::ErrorCode;
use vstd::prelude::*;

verus! {

#[verifier::external_type_specification]
pub struct ExErrorCode(ErrorCode);

/// What an instruction handler sees of one account handed to it.
#[derive(Clone, Copy, Debug)]
pub struct AccountView {
    pub key: Address,
    pub is_signer: bool,
    pub is_writable: bool,
    pub executable: bool,
}

/// The accounts of `initialize`: none.
#[derive(Clone, Copy, Debug)]
pub struct Initialize {}

/// The accounts of `create_account_with_owner`, in the order the instruction
/// takes them.
#[derive(Clone, Copy, Debug)]
pub struct CreateAccountWithOwner {
    /// Funds the new account: signs and is written.
    pub payer: AccountView,
    /// The account to create: written; its address is checked by the runtime.
    pub new_account: AccountView,
    /// Root of the address derivation: signs, not written.
    pub base: AccountView,
    /// The runtime's system program.
    pub system_program: AccountView,
}

/// The outcome of checking the accounts handed to `create_account_with_owner`.
/// Each account is taken in turn and checked for its kind (a signer, the
/// system program); then the payer and the new account must be writable.
pub open spec fn create_accounts_check(accounts: Seq<AccountView>) -> Result<(), ErrorCode> {
    if accounts.len() < 1 {
        Err(ErrorCode::AccountNotEnoughKeys)
    } else if !accounts[0].is_signer {
        Err(ErrorCode::AccountNotSigner)
    } else if accounts.len() < 3 {
        Err(ErrorCode::AccountNotEnoughKeys)
    } else if !accounts[2].is_signer {
        Err(ErrorCode::AccountNotSigner)
    } else if accounts.len() < 4 {
        Err(ErrorCode::AccountNotEnoughKeys)
    } else if accounts[3].key@ != system_program_address() {
        Err(ErrorCode::InvalidProgramId)
    } else if !accounts[3].executable {
        Err(ErrorCode::InvalidProgramExecutable)
    } else if !accounts[0].is_writable || !accounts[1].is_writable {
        Err(ErrorCode::ConstraintMut)
    } else {
        Ok(())
    }
}

impl CreateAccountWithOwner {
    /// Whether these accounts meet the instruction's constraints.
    pub open spec fn wf(&self) -> bool {
        &&& self.payer.is_signer && self.payer.is_writable
        &&& self.new_account.is_writable
        &&& self.base.is_signer
        &&& self.system_program.key@ == system_program_address()
        &&& self.system_program.executable
    }

    /// Takes the instruction's accounts from the front of `accounts` and checks
    /// them; accounts past the fourth are left alone.
    ///
    /// This states, in the same order and with the same errors, the checks that
    /// anchor's `#[derive(Accounts)]` generates for this struct. On chain those
    /// generated checks are what runs, before the handler is entered; this
    /// function is their verified statement, for callers that hold the
    /// accounts as plain values.
    pub fn try_accounts(accounts: &[AccountView]) -> (r: Result<CreateAccountWithOwner, ErrorCode>)
        ensures
            match r {
                Ok(c) => {
                    &&& create_accounts_check(accounts@) is Ok
                    &&& c == (CreateAccountWithOwner {
                        payer: accounts@[0],
                        new_account: accounts@[1],
                        base: accounts@[2],
                        system_program: accounts@[3],
                    })
                    &&& c.wf()
                },
                Err(e) => create_accounts_check(accounts@) == Err::<(), ErrorCode>(e),
            },
            !(accounts@.len() > 2 && accounts@[2].is_signer) ==> r is Err,
    {
        if accounts.len() < 1 {
            return Err(ErrorCode::AccountNotEnoughKeys);
        }
        let payer = accounts[0];
        if !payer.is_signer {
            return Err(ErrorCode::AccountNotSigner);
        }
        if accounts.len() < 3 {
            return Err(ErrorCode::AccountNotEnoughKeys);
        }
        let new_account = accounts[1];
        let base = accounts[2];
        if !base.is_signer {
            return Err(ErrorCode::AccountNotSigner);
        }
        if accounts.len() < 4 {
            return Err(ErrorCode::AccountNotEnoughKeys);
        }
        let system_program = accounts[3];
        if system_program.key != system_program_id() {
            return Err(ErrorCode::InvalidProgramId);
        }
        if !system_program.executable {
            return Err(ErrorCode::InvalidProgramExecutable);
        }
        if !payer.is_writable || !new_account.is_writable {
            return Err(ErrorCode::ConstraintMut);
        }
        Ok(CreateAccountWithOwner { payer, new_account, base, system_program })
    }
}

} // verus!
