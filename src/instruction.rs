use crate::address::Address;
use anchor_lang::solana_program::pubkey::Pubkey;
use anchor_lang::solana_program::{system_instruction, system_program};
use vstd::bytes::{
    lemma_auto_spec_u32_to_from_le_bytes, lemma_auto_spec_u64_to_from_le_bytes,
    spec_u32_to_le_bytes, spec_u64_from_le_bytes, spec_u64_to_le_bytes,
};
use vstd::prelude::*;
use vstd::utf8::{encode_utf8, encode_utf8_decode_utf8};

verus! {

/// One account that an instruction names, with the access it asks for.
#[derive(Clone, Copy, Debug)]
pub struct AccountMeta {
    pub pubkey: Address,
    pub is_signer: bool,
    pub is_writable: bool,
}

/// An instruction for a program on the ledger: the program's address, the
/// accounts it reads or writes, and its encoded arguments.
#[derive(Clone, Debug)]
pub struct Instruction {
    pub program_id: Address,
    pub accounts: Vec<AccountMeta>,
    pub data: Vec<u8>,
}

/// The address of the runtime's system program: 32 zero bytes.
pub open spec fn system_program_address() -> Seq<u8> {
    Seq::new(32, |i: int| 0u8)
}

/// Index of the create-account-with-seed variant among the system program's
/// instructions.
pub const CREATE_ACCOUNT_WITH_SEED_TAG: u32 = 3;

/// The encoded arguments of a system-program create-account-with-seed
/// instruction: the variant index as a little-endian `u32`, the base address,
/// the seed as a little-endian `u64` byte count followed by its UTF-8 bytes,
/// the lamports and the space as little-endian `u64`s, and the owner address.
pub open spec fn create_with_seed_data(
    base: Seq<u8>,
    seed: Seq<char>,
    lamports: u64,
    space: u64,
    owner: Seq<u8>,
) -> Seq<u8> {
    spec_u32_to_le_bytes(CREATE_ACCOUNT_WITH_SEED_TAG) + base + spec_u64_to_le_bytes(
        encode_utf8(seed).len() as u64,
    ) + encode_utf8(seed) + spec_u64_to_le_bytes(lamports) + spec_u64_to_le_bytes(space) + owner
}

/// The encoded arguments determine the request: two create-account-with-seed
/// encodings that are equal carry the same base, seed, lamports, space and
/// owner.
pub proof fn lemma_create_with_seed_data_injective(
    base1: Seq<u8>,
    seed1: Seq<char>,
    lamports1: u64,
    space1: u64,
    owner1: Seq<u8>,
    base2: Seq<u8>,
    seed2: Seq<char>,
    lamports2: u64,
    space2: u64,
    owner2: Seq<u8>,
)
    requires
        base1.len() == 32,
        owner1.len() == 32,
        base2.len() == 32,
        owner2.len() == 32,
        create_with_seed_data(base1, seed1, lamports1, space1, owner1) == create_with_seed_data(
            base2,
            seed2,
            lamports2,
            space2,
            owner2,
        ),
    ensures
        base1 == base2,
        seed1 == seed2,
        lamports1 == lamports2,
        space1 == space2,
        owner1 == owner2,
{
    lemma_auto_spec_u32_to_from_le_bytes();
    lemma_auto_spec_u64_to_from_le_bytes();
    let d = create_with_seed_data(base1, seed1, lamports1, space1, owner1);
    let e1 = encode_utf8(seed1);
    let e2 = encode_utf8(seed2);
    let n = e1.len() as int;
    assert(d.len() == 92 + n);
    assert(d.len() == 92 + e2.len());
    assert(d.subrange(4, 36) =~= base1);
    assert(d.subrange(4, 36) =~= base2);
    assert(d.subrange(44, 44 + n) =~= e1);
    assert(d.subrange(44, 44 + n) =~= e2);
    encode_utf8_decode_utf8(seed1);
    encode_utf8_decode_utf8(seed2);
    assert(d.subrange(44 + n, 52 + n) =~= spec_u64_to_le_bytes(lamports1));
    assert(d.subrange(44 + n, 52 + n) =~= spec_u64_to_le_bytes(lamports2));
    assert(spec_u64_from_le_bytes(spec_u64_to_le_bytes(lamports1)) == lamports1);
    assert(spec_u64_from_le_bytes(spec_u64_to_le_bytes(lamports2)) == lamports2);
    assert(d.subrange(52 + n, 60 + n) =~= spec_u64_to_le_bytes(space1));
    assert(d.subrange(52 + n, 60 + n) =~= spec_u64_to_le_bytes(space2));
    assert(spec_u64_from_le_bytes(spec_u64_to_le_bytes(space1)) == space1);
    assert(spec_u64_from_le_bytes(spec_u64_to_le_bytes(space2)) == space2);
    assert(d.subrange(60 + n, 92 + n) =~= owner1);
    assert(d.subrange(60 + n, 92 + n) =~= owner2);
}

/// Whether an account entry names `key` with the given access.
pub open spec fn meta_is(m: AccountMeta, key: Seq<u8>, is_signer: bool, is_writable: bool) -> bool {
    &&& m.pubkey@ == key
    &&& m.is_signer == is_signer
    &&& m.is_writable == is_writable
}

/// Whether `ix` asks the system program to create the account `to`, funded by
/// `from`, at the address derived from `base` and `seed`, with `lamports`,
/// `space` bytes and `owner` as its owner. The funder and the base must sign;
/// the funder and the new account are written.
pub open spec fn creates_with_seed(
    ix: &Instruction,
    from: Seq<u8>,
    to: Seq<u8>,
    base: Seq<u8>,
    seed: Seq<char>,
    lamports: u64,
    space: u64,
    owner: Seq<u8>,
) -> bool {
    &&& ix.program_id@ == system_program_address()
    &&& ix.accounts@.len() == 3
    &&& meta_is(ix.accounts@[0], from, true, true)
    &&& meta_is(ix.accounts@[1], to, false, true)
    &&& meta_is(ix.accounts@[2], base, true, false)
    &&& ix.data@ == create_with_seed_data(base, seed, lamports, space, owner)
}

/// An instruction names one request only: if `ix` creates an account with
/// seed for two sets of arguments, the two sets are the same.
pub proof fn lemma_instruction_determines_request(
    ix: &Instruction,
    from1: Seq<u8>,
    to1: Seq<u8>,
    base1: Seq<u8>,
    seed1: Seq<char>,
    lamports1: u64,
    space1: u64,
    owner1: Seq<u8>,
    from2: Seq<u8>,
    to2: Seq<u8>,
    base2: Seq<u8>,
    seed2: Seq<char>,
    lamports2: u64,
    space2: u64,
    owner2: Seq<u8>,
)
    requires
        base1.len() == 32,
        owner1.len() == 32,
        base2.len() == 32,
        owner2.len() == 32,
        creates_with_seed(ix, from1, to1, base1, seed1, lamports1, space1, owner1),
        creates_with_seed(ix, from2, to2, base2, seed2, lamports2, space2, owner2),
    ensures
        from1 == from2,
        to1 == to2,
        base1 == base2,
        seed1 == seed2,
        lamports1 == lamports2,
        space1 == space2,
        owner1 == owner2,
{
    lemma_create_with_seed_data_injective(
        base1,
        seed1,
        lamports1,
        space1,
        owner1,
        base2,
        seed2,
        lamports2,
        space2,
        owner2,
    );
}

/// Relies on system_program::ID: the system program's address, 32 zero bytes.
#[verifier::external_body]
pub(crate) fn system_program_id() -> (r: Address)
    ensures
        r@ == system_program_address(),
{
    Address { bytes: system_program::ID.to_bytes() }
}

/// Relies on system_instruction::create_account_with_seed: the funder as a
/// writable signer, the new account as writable, the base as a read-only
/// signer, and the bincode encoding of the create-account-with-seed variant.
#[verifier::external_body]
pub(crate) fn system_create_account_with_seed(from: &Address, to: &Address, base: &Address, seed: &str, lamports: u64, space: u64, owner: &Address) -> (r: Instruction)
    ensures
        creates_with_seed(&r, from@, to@, base@, seed@, lamports, space, owner@),
{
    let ix = system_instruction::create_account_with_seed(
        &Pubkey::new_from_array(from.bytes),
        &Pubkey::new_from_array(to.bytes),
        &Pubkey::new_from_array(base.bytes),
        seed,
        lamports,
        space,
        &Pubkey::new_from_array(owner.bytes),
    );
    let accounts = ix.accounts.iter().map(|m| AccountMeta { pubkey: Address { bytes: m.pubkey.to_bytes() }, is_signer: m.is_signer, is_writable: m.is_writable }).collect();
    Instruction { program_id: Address { bytes: ix.program_id.to_bytes() }, accounts, data: ix.data }
}

} // verus!
