//! Deterministic address derivation: a namespace tag plus seed material
//! maps to a unique account address and a disambiguating bump nonce.
//!
//! The derivation itself is the surrounding ledger's SHA-256-based search
//! for an off-curve point; here it is a named, opaque function of the
//! seeds and the program id alone, and everything the program concludes
//! about addresses is proved from that determinism.

use vstd::prelude::*;

use vstd::bytes::{spec_u64_to_le_bytes, u64_to_le_bytes};
use vstd::slice::slice_to_vec;

verus! {

/// What the ledger's address derivation returns for the given seed
/// slices and program id: the derived address (32 bytes) and its bump
/// nonce, or nothing when no viable nonce exists in the bounded search
/// space. A function of its arguments alone.
pub uninterp spec fn derive_of(seeds: Seq<Seq<u8>>, program_id: Seq<u8>) -> Option<(Seq<u8>, u8)>;

/// Relies on `solana_program::pubkey::Pubkey::try_find_program_address`:
/// a deterministic SHA-256-based search over bump seeds, a pure function
/// of the seed slices and the program id, returning `None` only when no
/// bump yields an off-curve address (or a seed limit is exceeded).
#[verifier::external_body]
fn find_derived_address(seeds: &Vec<Vec<u8>>, program_id: &[u8; 32]) -> (r: Option<([u8; 32], u8)>)
    ensures
        match r {
            Some(p) => derive_of(seeds@.map_values(|s: Vec<u8>| s@), program_id@) == Some(
                (p.0@, p.1),
            ),
            None => derive_of(seeds@.map_values(|s: Vec<u8>| s@), program_id@) is None,
        },
{
    let seed_refs: Vec<&[u8]> = seeds.iter().map(|s| s.as_slice()).collect();
    let pid = solana_program::pubkey::Pubkey::new_from_array(*program_id);
    solana_program::pubkey::Pubkey::try_find_program_address(&seed_refs, &pid).map(
        |p: (solana_program::pubkey::Pubkey, u8)| (p.0.to_bytes(), p.1),
    )
}

/// The namespace tag of issuer records: the bytes of "issuer".
pub open spec fn spec_issuer_tag() -> Seq<u8> {
    seq![105u8, 115u8, 115u8, 117u8, 101u8, 114u8]
}

/// The namespace tag of tree records: the bytes of "tree".
pub open spec fn spec_tree_tag() -> Seq<u8> {
    seq![116u8, 114u8, 101u8, 101u8]
}

/// Seeds of an issuer record's address: the tag and the authority.
pub open spec fn spec_issuer_seeds(authority: Seq<u8>) -> Seq<Seq<u8>> {
    seq![spec_issuer_tag(), authority]
}

/// Seeds of a tree record's address: the tag, the owning authority, and
/// the tree's index under that issuer.
pub open spec fn spec_tree_seeds(authority: Seq<u8>, index: u64) -> Seq<Seq<u8>> {
    seq![spec_tree_tag(), authority, spec_u64_to_le_bytes(index)]
}

/// Seeds a delegated call is signed with: the issuer seeds plus the
/// record's stored bump nonce.
pub open spec fn spec_signer_seeds(authority: Seq<u8>, bump: u8) -> Seq<Seq<u8>> {
    seq![spec_issuer_tag(), authority, seq![bump]]
}

fn issuer_tag() -> (r: Vec<u8>)
    ensures
        r@ == spec_issuer_tag(),
{
    let mut t: Vec<u8> = Vec::new();
    t.push(105);
    t.push(115);
    t.push(115);
    t.push(117);
    t.push(101);
    t.push(114);
    proof {
        assert(t@ =~= spec_issuer_tag());
    }
    t
}

fn tree_tag() -> (r: Vec<u8>)
    ensures
        r@ == spec_tree_tag(),
{
    let mut t: Vec<u8> = Vec::new();
    t.push(116);
    t.push(114);
    t.push(101);
    t.push(101);
    proof {
        assert(t@ =~= spec_tree_tag());
    }
    t
}

/// Build the issuer seeds for an authority.
pub fn issuer_seeds(authority: &[u8; 32]) -> (r: Vec<Vec<u8>>)
    ensures
        r@.map_values(|s: Vec<u8>| s@) == spec_issuer_seeds(authority@),
{
    let mut out: Vec<Vec<u8>> = Vec::new();
    out.push(issuer_tag());
    out.push(slice_to_vec(authority.as_slice()));
    proof {
        assert(out@.map_values(|s: Vec<u8>| s@) =~= spec_issuer_seeds(authority@));
    }
    out
}

/// Build the tree seeds for an authority and a tree index.
pub fn tree_seeds(authority: &[u8; 32], index: u64) -> (r: Vec<Vec<u8>>)
    ensures
        r@.map_values(|s: Vec<u8>| s@) == spec_tree_seeds(authority@, index),
{
    let mut out: Vec<Vec<u8>> = Vec::new();
    out.push(tree_tag());
    out.push(slice_to_vec(authority.as_slice()));
    out.push(u64_to_le_bytes(index));
    proof {
        assert(out@.map_values(|s: Vec<u8>| s@) =~= spec_tree_seeds(authority@, index));
    }
    out
}

/// Derive the address of an issuer record.
pub fn derive_issuer_address(program_id: &[u8; 32], authority: &[u8; 32]) -> (r: Option<
    ([u8; 32], u8),
>)
    ensures
        match r {
            Some(p) => derive_of(spec_issuer_seeds(authority@), program_id@) == Some((p.0@, p.1)),
            None => derive_of(spec_issuer_seeds(authority@), program_id@) is None,
        },
{
    let seeds = issuer_seeds(authority);
    find_derived_address(&seeds, program_id)
}

/// Derive the address of a tree record for the given index.
pub fn derive_tree_address(program_id: &[u8; 32], authority: &[u8; 32], index: u64) -> (r: Option<
    ([u8; 32], u8),
>)
    ensures
        match r {
            Some(p) => derive_of(spec_tree_seeds(authority@, index), program_id@) == Some(
                (p.0@, p.1),
            ),
            None => derive_of(spec_tree_seeds(authority@, index), program_id@) is None,
        },
{
    let seeds = tree_seeds(authority, index);
    find_derived_address(&seeds, program_id)
}

/// The derived-authority credential a delegated operation is signed
/// with: the exact seeds that produced the issuer's address, never the
/// controlling key itself.
#[derive(Clone, Debug)]
pub struct DerivedSigner {
    pub seeds: Vec<Vec<u8>>,
}

impl DerivedSigner {
    /// Build the derived signer for an issuer's authority and bump.
    pub fn new(authority: &[u8; 32], bump: u8) -> (r: DerivedSigner)
        ensures
            r.seeds@.map_values(|s: Vec<u8>| s@) == spec_signer_seeds(authority@, bump),
    {
        let mut seeds: Vec<Vec<u8>> = Vec::new();
        seeds.push(issuer_tag());
        seeds.push(slice_to_vec(authority.as_slice()));
        let mut bump_seed: Vec<u8> = Vec::new();
        bump_seed.push(bump);
        proof {
            assert(bump_seed@ =~= seq![bump]);
        }
        seeds.push(bump_seed);
        proof {
            assert(seeds@.map_values(|s: Vec<u8>| s@) =~~= spec_signer_seeds(authority@, bump));
        }
        DerivedSigner { seeds }
    }
}

} // verus!
