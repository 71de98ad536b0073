use crate::account::Authority;
use crate::error::VaultError;
use crate::instruct::TAG_SOL_VAULT;
use crate::pubkey::{
    derivation_view, on_curve, program_address, seeds_view, try_find_program_address, Pubkey,
};
use vstd::prelude::*;

verus! {

/// The seeds from which the escrow address of `owner` is derived: the
/// domain tag, then the owner's key.
pub open spec fn escrow_seeds(owner: Pubkey) -> Seq<Seq<u8>> {
    seq![TAG_SOL_VAULT@, owner@]
}

/// The seeds with which the program signs for the escrow of
/// `authority.owner`: the domain tag, the owner's key, and the bump seed.
pub open spec fn signer_seeds(authority: Authority) -> Seq<Seq<u8>> {
    seq![TAG_SOL_VAULT@, authority.owner@, seq![authority.bump]]
}

/// The escrow address of `owner` under the program `program_id`, with its
/// bump seed; nothing where the search finds no address.
pub open spec fn derived_escrow(owner: Pubkey, program_id: Pubkey) -> Option<(Seq<u8>, u8)> {
    program_address(escrow_seeds(owner), program_id@)
}

/// Whether `candidate` is the derived address: the bump seed if it is, and
/// `AddressMismatch` if it is another address or none was derived.
pub open spec fn address_verified(candidate: Pubkey, derived: Option<(Seq<u8>, u8)>) -> Result<
    u8,
    VaultError,
> {
    match derived {
        Some((address, bump)) => if address == candidate@ {
            Ok(bump)
        } else {
            Err(VaultError::AddressMismatch)
        },
        None => Err(VaultError::AddressMismatch),
    }
}

/// The bytes of the domain tag.
pub fn tag_bytes() -> (r: Vec<u8>)
    ensures
        r@ == TAG_SOL_VAULT@,
{
    let mut out: Vec<u8> = Vec::with_capacity(9);
    let mut i: usize = 0;
    while i < 9
        invariant
            i <= 9,
            out@ == TAG_SOL_VAULT@.subrange(0, i as int),
        decreases 9 - i,
    {
        out.push(TAG_SOL_VAULT[i]);
        i += 1;
    }
    out
}

impl Authority {
    /// The seeds that the host needs to let the program sign for the escrow.
    pub fn seeds(&self) -> (r: Vec<Vec<u8>>)
        ensures
            seeds_view(r@) == signer_seeds(*self),
    {
        let mut seeds: Vec<Vec<u8>> = Vec::with_capacity(3);
        seeds.push(tag_bytes());
        seeds.push(self.owner.to_vec());
        let mut bump: Vec<u8> = Vec::with_capacity(1);
        bump.push(self.bump);
        seeds.push(bump);
        assert(seeds_view(seeds@) =~= signer_seeds(*self));
        seeds
    }
}

/// Derives the escrow address of `owner` under the program `program_id`.
/// The address and the bump seed depend on the two keys alone: every call
/// with the same keys gives the same answer. The address is off the curve, so
/// no signing key belongs to it and only the program can sign for it.
pub fn find_escrow_address(owner: &Pubkey, program_id: &Pubkey) -> (r: Option<(Pubkey, u8)>)
    ensures
        derivation_view(r) == derived_escrow(*owner, *program_id),
        r matches Some((address, _)) ==> !on_curve(address@),
{
    let mut seeds: Vec<Vec<u8>> = Vec::with_capacity(2);
    seeds.push(tag_bytes());
    seeds.push(owner.to_vec());
    assert(seeds_view(seeds@) =~= escrow_seeds(*owner));
    try_find_program_address(&seeds, program_id)
}

/// Holds `candidate` against a derived address and returns the bump seed
/// when they are the same address.
pub fn check_escrow_address(candidate: &Pubkey, derived: Option<(Pubkey, u8)>) -> (r: Result<
    u8,
    VaultError,
>)
    ensures
        r == address_verified(*candidate, derivation_view(derived)),
{
    match derived {
        Some((address, bump)) => {
            proof {
                Pubkey::lemma_eq_by_view(address, *candidate);
            }
            if address == *candidate {
                Ok(bump)
            } else {
                Err(VaultError::AddressMismatch)
            }
        },
        None => Err(VaultError::AddressMismatch),
    }
}

/// Verifies that `candidate` is the escrow address of `owner` under the
/// program `program_id`, and returns its bump seed. An address that passes
/// is off the curve: it is no wallet.
pub fn verify_escrow_address(candidate: &Pubkey, owner: &Pubkey, program_id: &Pubkey) -> (r:
    Result<u8, VaultError>)
    ensures
        r == address_verified(*candidate, derived_escrow(*owner, *program_id)),
        r is Ok ==> !on_curve(candidate@),
{
    check_escrow_address(candidate, find_escrow_address(owner, program_id))
}

} // verus!
