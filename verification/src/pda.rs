//! Program derived addresses: each escrow and each vault lives at an
//! address derived from public inputs, so anyone can find it and only this
//! program can sign for it.
use vstd::prelude::*;
use vstd::bytes::{spec_u64_to_le_bytes, u64_to_le_bytes};
use vstd::slice::slice_to_vec;

use crate::address::Address;
use crate::errors::InstructionError;
use crate::state::{escrow_seed, escrow_seed_bytes, vault_seed, vault_seed_bytes};

verus! {

/// The most seeds, bump included, that an address derivation accepts.
pub const MAX_SEEDS: usize = 16;

/// The longest seed, in bytes, that an address derivation accepts.
pub const MAX_SEED_LEN: usize = 32;

/// The address, if any, that `Pubkey::create_program_address` derives from
/// `seeds` for `program_id` (a hash of the seeds, the program id and a
/// marker, kept only when it is not a point of the Ed25519 curve).
pub uninterp spec fn program_address(seeds: Seq<Seq<u8>>, program_id: Seq<u8>) -> Option<
    Seq<u8>,
>;

/// The contents of a list of seeds.
pub open spec fn seeds_view(seeds: Seq<Vec<u8>>) -> Seq<Seq<u8>> {
    seeds.map_values(|s: Vec<u8>| s@)
}

/// The address that `seeds` followed by the one-byte seed `bump` derive.
pub open spec fn derived_address(seeds: Seq<Seq<u8>>, bump: u8, program_id: Seq<u8>) -> Option<
    Seq<u8>,
> {
    program_address(seeds.push(seq![bump]), program_id)
}

/// Whether `bump` is the canonical bump of `seeds`: the largest bump, from
/// 255 down to 1, for which an address is derived.
pub open spec fn is_canonical_bump(seeds: Seq<Seq<u8>>, program_id: Seq<u8>, bump: u8) -> bool {
    &&& 1 <= bump
    &&& derived_address(seeds, bump, program_id) is Some
    &&& forall|c: u8| bump < c ==> (#[trigger] derived_address(seeds, c, program_id)) is None
}

/// The canonical address of `seeds` with its bump, if there is one.
pub open spec fn canonical_address(seeds: Seq<Seq<u8>>, program_id: Seq<u8>) -> Option<(Seq<u8>, u8)> {
    if exists|b: u8| is_canonical_bump(seeds, program_id, b) {
        let b = choose|b: u8| is_canonical_bump(seeds, program_id, b);
        Some((derived_address(seeds, b, program_id)->0, b))
    } else {
        None
    }
}

/// The seeds of the escrow account: `["escrow", buyer, escrow_id as 8
/// little-endian bytes]`.
pub open spec fn escrow_seeds_of(buyer: Seq<u8>, escrow_id: u64) -> Seq<Seq<u8>> {
    seq![escrow_seed_bytes(), buyer, spec_u64_to_le_bytes(escrow_id)]
}

/// The seeds of the vault account: `["vault", buyer, escrow_id as 8
/// little-endian bytes]`.
pub open spec fn vault_seeds_of(buyer: Seq<u8>, escrow_id: u64) -> Seq<Seq<u8>> {
    seq![vault_seed_bytes(), buyer, spec_u64_to_le_bytes(escrow_id)]
}

/// Calls `Pubkey::create_program_address` of `anchor_lang` (from
/// `solana-pubkey`). Claimed: the result is the named `program_address` of
/// the seeds and the program id, and there is none when there are more than
/// 16 seeds or a seed is longer than 32 bytes, as the source checks first.
#[verifier::external_body]
fn create_program_address(seeds: &Vec<Vec<u8>>, program_id: &Address) -> (r: Option<Address>)
    ensures
        match r {
            Some(a) => program_address(seeds_view(seeds@), program_id@) == Some(a@),
            None => program_address(seeds_view(seeds@), program_id@) is None,
        },
        (seeds@.len() > MAX_SEEDS || exists|i: int|
            0 <= i < seeds@.len() && #[trigger] seeds@[i]@.len() > MAX_SEED_LEN) ==> r is None,
{
    let slices: Vec<&[u8]> = seeds.iter().map(|s| s.as_slice()).collect();
    let id = anchor_lang::prelude::Pubkey::new_from_array(program_id.bytes);
    match anchor_lang::prelude::Pubkey::create_program_address(&slices, &id) {
        Ok(key) => Some(Address { bytes: key.to_bytes() }),
        Err(_) => None,
    }
}

/// Calls `Pubkey::try_find_program_address` of `anchor_lang` (from
/// `solana-pubkey`). Claimed, as its loop shows: it tries the bumps from 255
/// down to 1 with `create_program_address` and returns the first address
/// found with its bump; when none is found it returns nothing.
#[verifier::external_body]
fn try_find_program_address(seeds: &Vec<Vec<u8>>, program_id: &Address) -> (r: Option<(Address, u8)>)
    ensures
        match r {
            Some((a, b)) => {
                &&& is_canonical_bump(seeds_view(seeds@), program_id@, b)
                &&& derived_address(seeds_view(seeds@), b, program_id@) == Some(a@)
            },
            None => forall|c: u8|
                1 <= c ==> (#[trigger] derived_address(seeds_view(seeds@), c, program_id@)) is None,
        },
{
    let slices: Vec<&[u8]> = seeds.iter().map(|s| s.as_slice()).collect();
    let id = anchor_lang::prelude::Pubkey::new_from_array(program_id.bytes);
    match anchor_lang::prelude::Pubkey::try_find_program_address(&slices, &id) {
        Some((key, bump)) => Some((Address { bytes: key.to_bytes() }, bump)),
        None => None,
    }
}

/// The seeds of the escrow account of `buyer`'s escrow `escrow_id`.
pub fn escrow_seeds(buyer: &Address, escrow_id: u64) -> (r: Vec<Vec<u8>>)
    ensures
        seeds_view(r@) == escrow_seeds_of(buyer@, escrow_id),
{
    let mut r: Vec<Vec<u8>> = Vec::new();
    r.push(escrow_seed());
    r.push(slice_to_vec(buyer.bytes.as_slice()));
    r.push(u64_to_le_bytes(escrow_id));
    assert(seeds_view(r@) =~= escrow_seeds_of(buyer@, escrow_id));
    r
}

/// The seeds of the vault account of `buyer`'s escrow `escrow_id`.
pub fn vault_seeds(buyer: &Address, escrow_id: u64) -> (r: Vec<Vec<u8>>)
    ensures
        seeds_view(r@) == vault_seeds_of(buyer@, escrow_id),
{
    let mut r: Vec<Vec<u8>> = Vec::new();
    r.push(vault_seed());
    r.push(slice_to_vec(buyer.bytes.as_slice()));
    r.push(u64_to_le_bytes(escrow_id));
    assert(seeds_view(r@) =~= vault_seeds_of(buyer@, escrow_id));
    r
}

/// The address that `seeds` and `bump` derive for `program_id`, if any.
pub fn derive_address(seeds: &Vec<Vec<u8>>, bump: u8, program_id: &Address) -> (r: Option<Address>)
    ensures
        match r {
            Some(a) => derived_address(seeds_view(seeds@), bump, program_id@) == Some(a@),
            None => derived_address(seeds_view(seeds@), bump, program_id@) is None,
        },
{
    let mut with_bump: Vec<Vec<u8>> = Vec::new();
    let mut i: usize = 0;
    while i < seeds.len()
        invariant
            0 <= i <= seeds@.len(),
            with_bump@.len() == i,
            forall|j: int| 0 <= j < i ==> (#[trigger] with_bump@[j])@ == seeds@[j]@,
        decreases seeds@.len() - i,
    {
        with_bump.push(slice_to_vec(seeds[i].as_slice()));
        i = i + 1;
    }
    let mut last: Vec<u8> = Vec::new();
    last.push(bump);
    with_bump.push(last);
    assert(seeds_view(with_bump@) =~= seeds_view(seeds@).push(seq![bump]));
    create_program_address(&with_bump, program_id)
}

/// The canonical address of `seeds` with its bump, if any.
pub fn find_address(seeds: &Vec<Vec<u8>>, program_id: &Address) -> (r: Option<(Address, u8)>)
    ensures
        match r {
            Some((a, b)) => canonical_address(seeds_view(seeds@), program_id@) == Some((a@, b)),
            None => canonical_address(seeds_view(seeds@), program_id@) is None,
        },
{
    let r = try_find_program_address(seeds, program_id);
    proof {
        let sv = seeds_view(seeds@);
        match r {
            Some((a, b)) => {
                let c = choose|c: u8| is_canonical_bump(sv, program_id@, c);
                lemma_canonical_bump_unique(sv, program_id@, b, c);
            },
            None => {
                assert forall|c: u8| !is_canonical_bump(sv, program_id@, c) by {
                    if 1 <= c {
                        assert(derived_address(sv, c, program_id@) is None);
                    }
                }
            },
        }
    }
    r
}

/// Checks an account against a `seeds` constraint with a stored bump: the
/// account must sit at the address that the seeds and the bump derive.
pub fn check_address(key: &Address, seeds: &Vec<Vec<u8>>, bump: u8, program_id: &Address) -> (r:
    Result<(), InstructionError>)
    ensures
        r is Ok <==> derived_address(seeds_view(seeds@), bump, program_id@) == Some(key@),
        r is Err ==> r == Err::<(), InstructionError>(InstructionError::ConstraintSeeds),
{
    match derive_address(seeds, bump, program_id) {
        Some(a) => {
            if a.same_as(key) {
                Ok(())
            } else {
                Err(InstructionError::ConstraintSeeds)
            }
        },
        None => Err(InstructionError::ConstraintSeeds),
    }
}

/// Checks an account that is to be created at the canonical address of
/// `seeds`, and gives the canonical bump.
pub fn check_new_address(key: &Address, seeds: &Vec<Vec<u8>>, program_id: &Address) -> (r: Result<
    u8,
    InstructionError,
>)
    ensures
        r == new_address_check(key@, seeds_view(seeds@), program_id@),
{
    match find_address(seeds, program_id) {
        Some((a, b)) => {
            if a.same_as(key) {
                Ok(b)
            } else {
                Err(InstructionError::ConstraintSeeds)
            }
        },
        None => Err(InstructionError::ConstraintSeeds),
    }
}

/// The check of an account that is to be created: it must sit at the
/// canonical address of its seeds, whose bump is then recorded.
pub open spec fn new_address_check(key: Seq<u8>, seeds: Seq<Seq<u8>>, program_id: Seq<u8>) -> Result<
    u8,
    InstructionError,
> {
    match canonical_address(seeds, program_id) {
        Some((a, b)) => if a == key {
            Ok(b)
        } else {
            Err(InstructionError::ConstraintSeeds)
        },
        None => Err(InstructionError::ConstraintSeeds),
    }
}

/// A list of seeds has at most one canonical bump.
pub proof fn lemma_canonical_bump_unique(seeds: Seq<Seq<u8>>, program_id: Seq<u8>, b: u8, c: u8)
    requires
        is_canonical_bump(seeds, program_id, b),
        is_canonical_bump(seeds, program_id, c),
    ensures
        b == c,
{
    if b < c {
        assert(derived_address(seeds, c, program_id) is None);
    } else if c < b {
        assert(derived_address(seeds, b, program_id) is None);
    }
}

} // verus!
