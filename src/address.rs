use anchor_lang::solana_program::pubkey::{Pubkey, PubkeyError};
use vstd::prelude::*;
use vstd::utf8::encode_utf8;

verus! {

/// Number of bytes in an account address.
pub const ADDRESS_LEN: usize = 32;

/// An account address on the ledger: 32 raw bytes.
#[derive(Clone, Copy, Debug)]
pub struct Address {
    pub bytes: [u8; 32],
}

impl View for Address {
    type V = Seq<u8>;

    open spec fn view(&self) -> Seq<u8> {
        self.bytes@
    }
}

impl Address {
    /// The address made of the given bytes.
    pub fn new(bytes: [u8; 32]) -> (r: Address)
        ensures
            r@ == bytes@,
    {
        Address { bytes }
    }

    /// The bytes of this address.
    pub fn to_bytes(&self) -> (r: [u8; 32])
        ensures
            r@ == self@,
    {
        self.bytes
    }
}

impl PartialEq for Address {
    fn eq(&self, other: &Address) -> (r: bool)
        ensures
            r == (self@ == other@),
    {
        let mut i: usize = 0;
        while i < ADDRESS_LEN
            invariant
                i <= ADDRESS_LEN,
                self@.len() == ADDRESS_LEN,
                other@.len() == ADDRESS_LEN,
                forall|j: int| 0 <= j < i ==> self@[j] == other@[j],
            decreases ADDRESS_LEN - i,
        {
            if self.bytes[i] != other.bytes[i] {
                return false;
            }
            i = i + 1;
        }
        assert(self@ =~= other@);
        true
    }
}

impl vstd::std_specs::cmp::PartialEqSpecImpl for Address {
    open spec fn obeys_eq_spec() -> bool {
        true
    }

    open spec fn eq_spec(&self, other: &Address) -> bool {
        self@ == other@
    }
}

impl Eq for Address {
}

#[verifier::external_type_specification]
pub struct ExPubkeyError(PubkeyError);

/// Longest seed, in bytes, that address derivation accepts.
pub const MAX_SEED_LEN: usize = 32;

/// The bytes of `ProgramDerivedAddress`: an owner whose address ends with them
/// is refused by seeded derivation.
pub open spec fn pda_marker() -> Seq<u8> {
    seq![
        80u8, 114, 111, 103, 114, 97, 109, 68, 101, 114, 105, 118, 101, 100, 65, 100, 100, 114,
        101, 115, 115,
    ]
}

/// Whether an owner address ends with the program-derived-address marker.
pub open spec fn has_pda_marker(owner: Seq<u8>) -> bool {
    &&& owner.len() >= pda_marker().len()
    &&& owner.subrange(owner.len() - pda_marker().len(), owner.len() as int) == pda_marker()
}

/// The address that the runtime derives from a base address, the UTF-8 bytes of
/// a seed and an owner program: the SHA-256 digest of the three in that order,
/// as the runtime's library computes it.
pub uninterp spec fn seeded_address(base: Seq<u8>, seed: Seq<u8>, owner: Seq<u8>) -> Seq<u8>;

/// Why an address could not be derived.
#[derive(Clone, Copy, Debug, PartialEq, Eq, Structural)]
pub enum DeriveError {
    /// The seed is longer than `MAX_SEED_LEN` bytes.
    MaxSeedLengthExceeded,
    /// The owner's address ends with the program-derived-address marker.
    IllegalOwner,
}

/// What derivation gives for a base address, a seed and an owner.
pub open spec fn derivation(base: Seq<u8>, seed: Seq<char>, owner: Seq<u8>) -> Result<
    Seq<u8>,
    DeriveError,
> {
    if encode_utf8(seed).len() > MAX_SEED_LEN {
        Err(DeriveError::MaxSeedLengthExceeded)
    } else if has_pda_marker(owner) {
        Err(DeriveError::IllegalOwner)
    } else {
        Ok(seeded_address(base, encode_utf8(seed), owner))
    }
}

/// Relies on Pubkey::create_with_seed: a seed over 32 bytes is refused, then an
/// owner ending with the program-derived-address marker, else the digest of
/// base, seed bytes and owner is returned.
#[verifier::external_body]
fn pubkey_create_with_seed(base: &Address, seed: &str, owner: &Address) -> (r: Result<Address, PubkeyError>)
    ensures
        encode_utf8(seed@).len() > MAX_SEED_LEN ==> r is Err && r->Err_0 == PubkeyError::MaxSeedLengthExceeded,
        encode_utf8(seed@).len() <= MAX_SEED_LEN && has_pda_marker(owner@) ==> r is Err && r->Err_0 == PubkeyError::IllegalOwner,
        encode_utf8(seed@).len() <= MAX_SEED_LEN && !has_pda_marker(owner@) ==> r is Ok && r->Ok_0@ == seeded_address(base@, encode_utf8(seed@), owner@),
{
    let base = Pubkey::new_from_array(base.bytes);
    let owner = Pubkey::new_from_array(owner.bytes);
    Pubkey::create_with_seed(&base, seed, &owner).map(|k| Address { bytes: k.to_bytes() })
}

/// What `derive_address` promises of its result `r` for these arguments.
pub open spec fn derived_as(base: Seq<u8>, seed: Seq<char>, owner: Seq<u8>, r: Result<Address, DeriveError>) -> bool {
    match r {
        Ok(a) => derivation(base, seed, owner) == Ok::<Seq<u8>, DeriveError>(a@),
        Err(e) => derivation(base, seed, owner) == Err::<Seq<u8>, DeriveError>(e),
    }
}

/// Derivation is deterministic: two results of `derive_address` on the same
/// base, seed and owner are the same, the same address or the same error.
pub proof fn lemma_derivation_deterministic(
    base: Seq<u8>,
    seed: Seq<char>,
    owner: Seq<u8>,
    r1: Result<Address, DeriveError>,
    r2: Result<Address, DeriveError>,
)
    requires
        derived_as(base, seed, owner, r1),
        derived_as(base, seed, owner, r2),
    ensures
        r1 is Ok <==> r2 is Ok,
        r1 is Ok ==> r1->Ok_0@ == r2->Ok_0@,
        r1 is Err ==> r1->Err_0 == r2->Err_0,
{
}

/// Derives the address of an account created from `base` with `seed`, to be
/// owned by `owner`, as the runtime's system program does.
pub fn derive_address(base: &Address, seed: &str, owner: &Address) -> (r: Result<Address, DeriveError>)
    ensures
        derived_as(base@, seed@, owner@, r),
{
    match pubkey_create_with_seed(base, seed, owner) {
        Ok(a) => Ok(a),
        Err(PubkeyError::MaxSeedLengthExceeded) => Err(DeriveError::MaxSeedLengthExceeded),
        Err(PubkeyError::InvalidSeeds) => unreached(),
        Err(PubkeyError::IllegalOwner) => Err(DeriveError::IllegalOwner),
    }
}

} // verus!
