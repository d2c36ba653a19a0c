//! The issuer registry: creating issuer records, creating tree records
//! under an issuer, and loading either kind of record back from the
//! store.
//!
//! Each operation is stated twice: a spec-level transition over the store
//! map, and the executable handler proved to realize exactly that
//! transition. Every mutating operation either performs all of its writes
//! or none.

use vstd::prelude::*;

use crate::codec::{spec_parse_issuer, spec_parse_tree, spec_ser_issuer, spec_ser_tree};
use crate::errors::CredifyError;
use crate::ledger::Ledger;
use crate::pda::{
    derive_issuer_address, derive_of, derive_tree_address, spec_issuer_seeds, spec_tree_seeds,
};
use crate::records::{
    CallContext, CreateMerkleTreeData, CreateMerkleTreeView, InitializeIssuerData, IssuerData,
    IssuerView, InitializeIssuerView, MerkleTreeData, MerkleTreeView, create_tree_view_wf,
    init_view_wf, issuer_view_wf, key_eq, tree_view_wf,
};

verus! {

/// Loading an issuer record: the bytes at `address`, decoded; missing or
/// malformed bytes are a corrupt record.
pub open spec fn spec_load_issuer(m: Map<Seq<u8>, Seq<u8>>, address: Seq<u8>) -> Result<
    IssuerView,
    CredifyError,
> {
    if !m.contains_key(address) {
        Err(CredifyError::CorruptRecord)
    } else {
        match spec_parse_issuer(m[address]) {
            Some(v) => Ok(v),
            None => Err(CredifyError::CorruptRecord),
        }
    }
}

/// Loading a tree record.
pub open spec fn spec_load_tree(m: Map<Seq<u8>, Seq<u8>>, address: Seq<u8>) -> Result<
    MerkleTreeView,
    CredifyError,
> {
    if !m.contains_key(address) {
        Err(CredifyError::CorruptRecord)
    } else {
        match spec_parse_tree(m[address]) {
            Some(v) => Ok(v),
            None => Err(CredifyError::CorruptRecord),
        }
    }
}

/// Deserialize and validate the issuer record stored at `address`.
pub fn load_issuer(ledger: &Ledger, address: &[u8; 32]) -> (r: Result<IssuerData, CredifyError>)
    ensures
        match r {
            Ok(rec) => spec_load_issuer(ledger@, address@) == Ok::<IssuerView, CredifyError>(rec@)
                && issuer_view_wf(rec@),
            Err(e) => spec_load_issuer(ledger@, address@) == Err::<IssuerView, CredifyError>(e),
        },
{
    match ledger.get(address) {
        Some(bytes) => IssuerData::try_from_slice(bytes.as_slice()),
        None => Err(CredifyError::CorruptRecord),
    }
}

/// Deserialize and validate the tree record stored at `address`.
pub fn load_tree(ledger: &Ledger, address: &[u8; 32]) -> (r: Result<MerkleTreeData, CredifyError>)
    ensures
        match r {
            Ok(rec) => spec_load_tree(ledger@, address@) == Ok::<MerkleTreeView, CredifyError>(
                rec@,
            ) && tree_view_wf(rec@),
            Err(e) => spec_load_tree(ledger@, address@) == Err::<MerkleTreeView, CredifyError>(e),
        },
{
    match ledger.get(address) {
        Some(bytes) => MerkleTreeData::try_from_slice(bytes.as_slice()),
        None => Err(CredifyError::CorruptRecord),
    }
}

/// The initialize-issuer transition. The caller must be a signer; the
/// supplied address must equal the derivation for this authority; the
/// address must be unoccupied. On success the store gains exactly the new
/// record, written with both counters at zero and the record active.
pub open spec fn spec_initialize_issuer(
    m: Map<Seq<u8>, Seq<u8>>,
    program_id: Seq<u8>,
    authority: Seq<u8>,
    is_signer: bool,
    supplied_pda: Seq<u8>,
    d: InitializeIssuerView,
) -> (Result<IssuerView, CredifyError>, Map<Seq<u8>, Seq<u8>>) {
    if !is_signer {
        (Err(CredifyError::Unauthorized), m)
    } else {
        match derive_of(spec_issuer_seeds(authority), program_id) {
            Some(pb) => {
                if supplied_pda != pb.0 {
                    (Err(CredifyError::InvalidAddress), m)
                } else if m.contains_key(pb.0) {
                    (Err(CredifyError::AlreadyExists), m)
                } else {
                    let rec = IssuerView {
                        authority,
                        name: d.name,
                        logo_uri: d.logo_uri,
                        website: d.website,
                        bump: pb.1,
                        is_active: true,
                        credential_count: 0,
                        merkle_tree_count: 0,
                    };
                    (Ok(rec), m.insert(pb.0, spec_ser_issuer(rec)))
                }
            },
            None => (Err(CredifyError::InvalidAddress), m),
        }
    }
}

/// Create the issuer record for `ctx.authority` at its derived address.
pub fn process_initialize_issuer(
    ledger: &mut Ledger,
    ctx: &CallContext,
    data: InitializeIssuerData,
) -> (r: Result<IssuerData, CredifyError>)
    requires
        init_view_wf(data@),
    ensures
        ({
            let step = spec_initialize_issuer(
                old(ledger)@,
                ctx.program_id@,
                ctx.authority@,
                ctx.authority_is_signer,
                ctx.issuer_pda@,
                data@,
            );
            &&& final(ledger)@ == step.1
            &&& match r {
                Ok(rec) => step.0 == Ok::<IssuerView, CredifyError>(rec@),
                Err(e) => step.0 == Err::<IssuerView, CredifyError>(e),
            }
        }),
{
    if !ctx.authority_is_signer {
        return Err(CredifyError::Unauthorized);
    }
    match derive_issuer_address(&ctx.program_id, &ctx.authority) {
        Some(pb) => {
            let (pda, bump) = pb;
            if !key_eq(&ctx.issuer_pda, &pda) {
                return Err(CredifyError::InvalidAddress);
            }
            if ledger.contains(&ctx.issuer_pda) {
                return Err(CredifyError::AlreadyExists);
            }
            let rec = IssuerData {
                authority: ctx.authority,
                name: data.name,
                logo_uri: data.logo_uri,
                website: data.website,
                bump,
                is_active: true,
                credential_count: 0,
                merkle_tree_count: 0,
            };
            let bytes = rec.to_bytes();
            ledger.put(&ctx.issuer_pda, bytes);
            Ok(rec)
        },
        None => Err(CredifyError::InvalidAddress),
    }
}

/// The create-tree transition. The caller must be a signer and must be
/// the stored issuer authority; the supplied tree address must equal the
/// derivation for the issuer's current tree counter; the address must be
/// unoccupied. On success the store gains the tree record and the issuer
/// record is rewritten with its tree counter advanced by one — both
/// writes together, or none.
pub open spec fn spec_create_tree(
    m: Map<Seq<u8>, Seq<u8>>,
    program_id: Seq<u8>,
    authority: Seq<u8>,
    is_signer: bool,
    issuer_pda: Seq<u8>,
    tree_pda: Seq<u8>,
    d: CreateMerkleTreeView,
    now: i64,
) -> (Result<MerkleTreeView, CredifyError>, Map<Seq<u8>, Seq<u8>>) {
    if !is_signer {
        (Err(CredifyError::Unauthorized), m)
    } else {
        match spec_load_issuer(m, issuer_pda) {
            Err(e) => (Err(e), m),
            Ok(iss) => {
                if iss.authority != authority {
                    (Err(CredifyError::Unauthorized), m)
                } else {
                    match derive_of(spec_tree_seeds(authority, iss.merkle_tree_count), program_id) {
                        None => (Err(CredifyError::InvalidAddress), m),
                        Some(pb) => {
                            if tree_pda != pb.0 {
                                (Err(CredifyError::InvalidAddress), m)
                            } else if m.contains_key(pb.0) {
                                (Err(CredifyError::AlreadyExists), m)
                            } else {
                                let tree = MerkleTreeView {
                                    tree_authority: authority,
                                    merkle_tree: pb.0,
                                    max_depth: d.max_depth,
                                    max_buffer_size: d.max_buffer_size,
                                    created_at: now,
                                    is_active: true,
                                };
                                let iss2 = IssuerView {
                                    merkle_tree_count: (iss.merkle_tree_count + 1) as u64,
                                    ..iss
                                };
                                (
                                    Ok(tree),
                                    m.insert(pb.0, spec_ser_tree(tree)).insert(
                                        issuer_pda,
                                        spec_ser_issuer(iss2),
                                    ),
                                )
                            }
                        },
                    }
                }
            },
        }
    }
}

/// Create the next tree record under the caller's issuer, at the address
/// derived from the issuer's current tree counter, and advance that
/// counter in the same step.
pub fn process_create_merkle_tree(
    ledger: &mut Ledger,
    ctx: &CallContext,
    data: CreateMerkleTreeData,
) -> (r: Result<MerkleTreeData, CredifyError>)
    requires
        create_tree_view_wf(data@),
        spec_load_issuer(old(ledger)@, ctx.issuer_pda@) matches Ok(iss) ==> iss.merkle_tree_count
            < u64::MAX,
    ensures
        ({
            let step = spec_create_tree(
                old(ledger)@,
                ctx.program_id@,
                ctx.authority@,
                ctx.authority_is_signer,
                ctx.issuer_pda@,
                ctx.merkle_tree_account@,
                data@,
                ctx.now,
            );
            &&& final(ledger)@ == step.1
            &&& match r {
                Ok(rec) => step.0 == Ok::<MerkleTreeView, CredifyError>(rec@),
                Err(e) => step.0 == Err::<MerkleTreeView, CredifyError>(e),
            }
        }),
{
    if !ctx.authority_is_signer {
        return Err(CredifyError::Unauthorized);
    }
    let issuer = match load_issuer(ledger, &ctx.issuer_pda) {
        Ok(i) => i,
        Err(e) => {
            return Err(e);
        },
    };
    if !key_eq(&issuer.authority, &ctx.authority) {
        return Err(CredifyError::Unauthorized);
    }
    match derive_tree_address(&ctx.program_id, &ctx.authority, issuer.merkle_tree_count) {
        Some(pb) => {
            let (pda, _bump) = pb;
            if !key_eq(&ctx.merkle_tree_account, &pda) {
                return Err(CredifyError::InvalidAddress);
            }
            if ledger.contains(&ctx.merkle_tree_account) {
                return Err(CredifyError::AlreadyExists);
            }
            let tree = MerkleTreeData {
                tree_authority: ctx.authority,
                merkle_tree: ctx.merkle_tree_account,
                max_depth: data.max_depth,
                max_buffer_size: data.max_buffer_size,
                created_at: ctx.now,
                is_active: true,
            };
            let tree_bytes = tree.to_bytes();
            ledger.put(&ctx.merkle_tree_account, tree_bytes);
            let updated = IssuerData { merkle_tree_count: issuer.merkle_tree_count + 1, ..issuer };
            let issuer_bytes = updated.to_bytes();
            ledger.put(&ctx.issuer_pda, issuer_bytes);
            Ok(tree)
        },
        None => Err(CredifyError::InvalidAddress),
    }
}

/// Create a tree from its capacity parameters alone, with an unnamed
/// record: the short entry shape, for callers that carry no display
/// name. Behaves exactly as [`process_create_merkle_tree`] on an empty
/// name.
pub fn create_tree(ledger: &mut Ledger, ctx: &CallContext, max_depth: u32, max_buffer_size: u32)
    -> (r: Result<MerkleTreeData, CredifyError>)
    requires
        spec_load_issuer(old(ledger)@, ctx.issuer_pda@) matches Ok(iss) ==> iss.merkle_tree_count
            < u64::MAX,
    ensures
        ({
            let step = spec_create_tree(
                old(ledger)@,
                ctx.program_id@,
                ctx.authority@,
                ctx.authority_is_signer,
                ctx.issuer_pda@,
                ctx.merkle_tree_account@,
                CreateMerkleTreeView { max_depth, max_buffer_size, tree_name: Seq::empty() },
                ctx.now,
            );
            &&& final(ledger)@ == step.1
            &&& match r {
                Ok(rec) => step.0 == Ok::<MerkleTreeView, CredifyError>(rec@),
                Err(e) => step.0 == Err::<MerkleTreeView, CredifyError>(e),
            }
        }),
{
    let data = CreateMerkleTreeData { max_depth, max_buffer_size, tree_name: Vec::new() };
    process_create_merkle_tree(ledger, ctx, data)
}

} // verus!
