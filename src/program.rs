use crate::accounts::{CreateAccountWithOwner, Initialize};
use crate::address::Address;
use crate::instruction::{creates_with_seed, system_create_account_with_seed, Instruction};
use anchor_lang::error::ErrorCode;
use vstd::prelude::*;

verus! {

/// The entry point that only answers: it takes no accounts and always succeeds.
pub fn initialize(ctx: &Initialize) -> (r: Result<(), ErrorCode>)
    ensures
        r is Ok,
{
    Ok(())
}

/// Builds the system-program instruction that creates `ctx.new_account` at the
/// address derived from `ctx.base` and `seed`, funded by `ctx.payer` with
/// `lamports`, with `space` zeroed bytes, and owned by `owner`, whatever
/// program that is. The new account does not sign: the runtime checks its
/// address against the derivation instead, and the base's signature is
/// reused.
pub fn create_account_with_owner(
    ctx: &CreateAccountWithOwner,
    seed: String,
    owner: Address,
    space: u64,
    lamports: u64,
) -> (r: Instruction)
    ensures
        creates_with_seed(
            &r,
            ctx.payer.key@,
            ctx.new_account.key@,
            ctx.base.key@,
            seed@,
            lamports,
            space,
            owner@,
        ),
{
    system_create_account_with_seed(
        &ctx.payer.key,
        &ctx.new_account.key,
        &ctx.base.key,
        seed.as_str(),
        lamports,
        space,
        &owner,
    )
}

} // verus!
