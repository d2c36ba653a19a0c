//! The entry surface: a one-byte opcode followed by an opcode-specific
//! serialized payload, decoded and dispatched to the registry and the
//! coordinator.

use vstd::prelude::*;

use crate::coordinator::{
    CredentialOperation, MintInstruction, OperationKind, check_issue_request,
    process_issue_credential_via_cpi, process_verify_zk_proof, spec_issue_checks,
    spec_mint_instruction_ok, transfer_credential, burn_credential,
};
use crate::errors::CredifyError;
use crate::ledger::Ledger;
use crate::pda::{DerivedSigner, spec_signer_seeds};
use crate::records::{
    BurnCredentialData, BurnCredentialView, CallContext, CreateMerkleTreeData,
    CreateMerkleTreeView, InitializeIssuerData, InitializeIssuerView, IssueCredentialData,
    IssueCredentialView, IssuerData, IssuerView, MerkleTreeData, MerkleTreeView,
    TransferCredentialData, TransferCredentialView, create_tree_view_wf, init_view_wf,
    issue_view_wf, issuer_view_wf,
};
use crate::registry::{
    process_create_merkle_tree, process_initialize_issuer, spec_create_tree, spec_load_issuer,
    spec_initialize_issuer,
};
use crate::codec::{copy32, read_pref, spec_parse_pref};
use vstd::bytes::{
    spec_u32_from_le_bytes, spec_u64_from_le_bytes, u32_from_le_bytes, u64_from_le_bytes,
};
use vstd::slice::slice_subrange;

verus! {

pub const INITIALIZE_ISSUER: u8 = 0;
pub const ISSUE_CREDENTIAL_VIA_CPI: u8 = 1;
pub const VERIFY_ZK_PROOF: u8 = 2;
pub const CREATE_MERKLE_TREE: u8 = 3;
pub const TRANSFER_CREDENTIAL: u8 = 4;
pub const BURN_CREDENTIAL: u8 = 5;

/// Decode an initialize-issuer payload: three length-prefixed fields,
/// consumed exactly.
pub open spec fn spec_parse_init(b: Seq<u8>) -> Option<InitializeIssuerView> {
    match spec_parse_pref(b, 0) {
        Some((name, o1)) => match spec_parse_pref(b, o1) {
            Some((logo_uri, o2)) => match spec_parse_pref(b, o2) {
                Some((website, o3)) => {
                    if o3 == b.len() {
                        Some(InitializeIssuerView { name, logo_uri, website })
                    } else {
                        None
                    }
                },
                None => None,
            },
            None => None,
        },
        None => None,
    }
}

/// Decode a create-tree payload: two 32-bit scalars and one
/// length-prefixed field, consumed exactly.
pub open spec fn spec_parse_create_tree(b: Seq<u8>) -> Option<CreateMerkleTreeView> {
    if b.len() < 8 {
        None
    } else {
        match spec_parse_pref(b, 8) {
            Some((tree_name, o1)) => {
                if o1 == b.len() {
                    Some(
                        CreateMerkleTreeView {
                            max_depth: spec_u32_from_le_bytes(b.subrange(0, 4)),
                            max_buffer_size: spec_u32_from_le_bytes(b.subrange(4, 8)),
                            tree_name,
                        },
                    )
                } else {
                    None
                }
            },
            None => None,
        }
    }
}

/// Decode an issue payload: the subject, five length-prefixed fields,
/// and the target tree, consumed exactly.
pub open spec fn spec_parse_issue(b: Seq<u8>) -> Option<IssueCredentialView> {
    if b.len() < 32 {
        None
    } else {
        match spec_parse_pref(b, 32) {
            Some((credential_name, o1)) => match spec_parse_pref(b, o1) {
                Some((credential_type, o2)) => match spec_parse_pref(b, o2) {
                    Some((skill_business, o3)) => match spec_parse_pref(b, o3) {
                        Some((skill_tech, o4)) => match spec_parse_pref(b, o4) {
                            Some((metadata_uri, o5)) => {
                                if o5 + 32 == b.len() {
                                    Some(
                                        IssueCredentialView {
                                            student_wallet: b.subrange(0, 32),
                                            credential_name,
                                            credential_type,
                                            skill_business,
                                            skill_tech,
                                            metadata_uri,
                                            merkle_tree: b.subrange(o5, o5 + 32),
                                        },
                                    )
                                } else {
                                    None
                                }
                            },
                            None => None,
                        },
                        None => None,
                    },
                    None => None,
                },
                None => None,
            },
            None => None,
        }
    }
}

/// Decode a transfer payload: three 32-byte hashes, the leaf nonce and
/// index, and the new owner — 140 bytes exactly.
pub open spec fn spec_parse_transfer(b: Seq<u8>) -> Option<TransferCredentialView> {
    if b.len() == 140 {
        Some(
            TransferCredentialView {
                root: b.subrange(0, 32),
                data_hash: b.subrange(32, 64),
                creator_hash: b.subrange(64, 96),
                nonce: spec_u64_from_le_bytes(b.subrange(96, 104)),
                index: spec_u32_from_le_bytes(b.subrange(104, 108)),
                new_owner: b.subrange(108, 140),
            },
        )
    } else {
        None
    }
}

/// Decode a burn payload: three 32-byte hashes, the leaf nonce and
/// index — 108 bytes exactly.
pub open spec fn spec_parse_burn(b: Seq<u8>) -> Option<BurnCredentialView> {
    if b.len() == 108 {
        Some(
            BurnCredentialView {
                root: b.subrange(0, 32),
                data_hash: b.subrange(32, 64),
                creator_hash: b.subrange(64, 96),
                nonce: spec_u64_from_le_bytes(b.subrange(96, 104)),
                index: spec_u32_from_le_bytes(b.subrange(104, 108)),
            },
        )
    } else {
        None
    }
}

/// Decode an initialize-issuer payload.
pub fn parse_initialize_issuer(data: &[u8]) -> (r: Option<InitializeIssuerData>)
    ensures
        match r {
            Some(d) => spec_parse_init(data@) == Some(d@) && init_view_wf(d@),
            None => spec_parse_init(data@) is None,
        },
{
    let (name, o1) = match read_pref(data, 0) {
        Some(p) => p,
        None => {
            return None;
        },
    };
    let (logo_uri, o2) = match read_pref(data, o1) {
        Some(p) => p,
        None => {
            return None;
        },
    };
    let (website, o3) = match read_pref(data, o2) {
        Some(p) => p,
        None => {
            return None;
        },
    };
    if o3 != data.len() {
        return None;
    }
    Some(InitializeIssuerData { name, logo_uri, website })
}

/// Decode a create-tree payload.
pub fn parse_create_merkle_tree(data: &[u8]) -> (r: Option<CreateMerkleTreeData>)
    ensures
        match r {
            Some(d) => spec_parse_create_tree(data@) == Some(d@) && create_tree_view_wf(d@),
            None => spec_parse_create_tree(data@) is None,
        },
{
    if data.len() < 8 {
        return None;
    }
    let max_depth = u32_from_le_bytes(slice_subrange(data, 0, 4));
    let max_buffer_size = u32_from_le_bytes(slice_subrange(data, 4, 8));
    let (tree_name, o1) = match read_pref(data, 8) {
        Some(p) => p,
        None => {
            return None;
        },
    };
    if o1 != data.len() {
        return None;
    }
    Some(CreateMerkleTreeData { max_depth, max_buffer_size, tree_name })
}

/// Decode an issue payload.
pub fn parse_issue_credential(data: &[u8]) -> (r: Option<IssueCredentialData>)
    ensures
        match r {
            Some(d) => spec_parse_issue(data@) == Some(d@) && issue_view_wf(d@),
            None => spec_parse_issue(data@) is None,
        },
{
    if data.len() < 32 {
        return None;
    }
    let student_wallet = copy32(slice_subrange(data, 0, 32));
    let (credential_name, o1) = match read_pref(data, 32) {
        Some(p) => p,
        None => {
            return None;
        },
    };
    let (credential_type, o2) = match read_pref(data, o1) {
        Some(p) => p,
        None => {
            return None;
        },
    };
    let (skill_business, o3) = match read_pref(data, o2) {
        Some(p) => p,
        None => {
            return None;
        },
    };
    let (skill_tech, o4) = match read_pref(data, o3) {
        Some(p) => p,
        None => {
            return None;
        },
    };
    let (metadata_uri, o5) = match read_pref(data, o4) {
        Some(p) => p,
        None => {
            return None;
        },
    };
    if data.len() - o5 != 32 {
        return None;
    }
    let merkle_tree = copy32(slice_subrange(data, o5, o5 + 32));
    Some(
        IssueCredentialData {
            student_wallet,
            credential_name,
            credential_type,
            skill_business,
            skill_tech,
            metadata_uri,
            merkle_tree,
        },
    )
}

/// Decode a transfer payload.
pub fn parse_transfer_credential(data: &[u8]) -> (r: Option<TransferCredentialData>)
    ensures
        match r {
            Some(d) => spec_parse_transfer(data@) == Some(d@),
            None => spec_parse_transfer(data@) is None,
        },
{
    if data.len() != 140 {
        return None;
    }
    Some(
        TransferCredentialData {
            root: copy32(slice_subrange(data, 0, 32)),
            data_hash: copy32(slice_subrange(data, 32, 64)),
            creator_hash: copy32(slice_subrange(data, 64, 96)),
            nonce: u64_from_le_bytes(slice_subrange(data, 96, 104)),
            index: u32_from_le_bytes(slice_subrange(data, 104, 108)),
            new_owner: copy32(slice_subrange(data, 108, 140)),
        },
    )
}

/// Decode a burn payload.
pub fn parse_burn_credential(data: &[u8]) -> (r: Option<BurnCredentialData>)
    ensures
        match r {
            Some(d) => spec_parse_burn(data@) == Some(d@),
            None => spec_parse_burn(data@) is None,
        },
{
    if data.len() != 108 {
        return None;
    }
    Some(
        BurnCredentialData {
            root: copy32(slice_subrange(data, 0, 32)),
            data_hash: copy32(slice_subrange(data, 32, 64)),
            creator_hash: copy32(slice_subrange(data, 64, 96)),
            nonce: u64_from_le_bytes(slice_subrange(data, 96, 104)),
            index: u32_from_le_bytes(slice_subrange(data, 104, 108)),
        },
    )
}

/// What a successful request leaves behind: a local record write, or a
/// delegated operation the runtime must forward to the storage service.
#[derive(Debug)]
pub enum ProgramAction {
    /// An issuer record was written.
    IssuerInitialized(IssuerData),
    /// A tree record was written and the issuer's tree counter advanced.
    TreeCreated(MerkleTreeData),
    /// A mint must be delegated under the derived signer; the loaded
    /// issuer record is carried along so the service's outcome can be
    /// folded back via `apply_issue_outcome`.
    DelegateMint(MintInstruction, DerivedSigner, IssuerData),
    /// A transfer or burn must be delegated.
    DelegateLeafOperation(CredentialOperation),
}

/// Decode the one-byte opcode and its payload, run the selected
/// operation against the store, and report what the runtime must do
/// next. Any failure leaves the store exactly as it was.
pub fn process_instruction(ledger: &mut Ledger, ctx: &CallContext, instruction_data: &[u8]) -> (r:
    Result<ProgramAction, CredifyError>)
    requires
        spec_load_issuer(old(ledger)@, ctx.issuer_pda@) matches Ok(iss) ==> iss.merkle_tree_count
            < u64::MAX,
    ensures
        ({
            let b = instruction_data@;
            let rest = b.subrange(1, b.len() as int);
            let m0 = old(ledger)@;
            let pid = ctx.program_id@;
            let auth = ctx.authority@;
            let signed = ctx.authority_is_signer;
            let ipda = ctx.issuer_pda@;
            let tpda = ctx.merkle_tree_account@;
            match r {
                Ok(act) => b.len() >= 1 && match act {
                    ProgramAction::IssuerInitialized(rec) => b[0] == INITIALIZE_ISSUER && (
                    spec_parse_init(rest) matches Some(d) && ({
                        let step = spec_initialize_issuer(m0, pid, auth, signed, ipda, d);
                        step.0 == Ok::<IssuerView, CredifyError>(rec@) && final(ledger)@ == step.1
                    })),
                    ProgramAction::TreeCreated(rec) => b[0] == CREATE_MERKLE_TREE && (
                    spec_parse_create_tree(rest) matches Some(d) && ({
                        let step = spec_create_tree(m0, pid, auth, signed, ipda, tpda, d, ctx.now);
                        step.0 == Ok::<MerkleTreeView, CredifyError>(rec@) && final(ledger)@
                            == step.1
                    })),
                    ProgramAction::DelegateMint(mint, dsigner, iss) => b[0]
                        == ISSUE_CREDENTIAL_VIA_CPI && final(ledger)@ == m0 && (
                    spec_parse_issue(rest) matches Some(d) && {
                        &&& spec_issue_checks(m0, auth, signed, ipda, tpda) == Ok::<
                            IssuerView,
                            CredifyError,
                        >(iss@)
                        &&& issuer_view_wf(iss@)
                        &&& spec_mint_instruction_ok(
                            mint,
                            ctx.bubblegum_program@,
                            d.student_wallet,
                            ctx.merkle_tree@,
                            ctx.tree_authority@,
                            ctx.payer@,
                            d,
                        )
                        &&& dsigner.seeds@.map_values(|s: Vec<u8>| s@) == spec_signer_seeds(
                            auth,
                            iss.bump,
                        )
                    }),
                    ProgramAction::DelegateLeafOperation(op) => signed && final(ledger)@ == m0 && (
                    (b[0] == TRANSFER_CREDENTIAL && (spec_parse_transfer(rest) matches Some(d)
                        && op.kind == OperationKind::Transfer && op.tree@ == ctx.merkle_tree@
                        && op.root@ == d.root && op.data_hash@ == d.data_hash && op.creator_hash@
                        == d.creator_hash && op.nonce == d.nonce && op.index == d.index && (
                    op.new_owner matches Some(o) && o@ == d.new_owner))) || (b[0]
                        == BURN_CREDENTIAL && (spec_parse_burn(rest) matches Some(d) && op.kind
                        == OperationKind::Burn && op.tree@ == ctx.merkle_tree@ && op.root@ == d.root
                        && op.data_hash@ == d.data_hash && op.creator_hash@ == d.creator_hash
                        && op.nonce == d.nonce && op.index == d.index && op.new_owner is None))),
                },
                Err(e) => final(ledger)@ == m0 && if b.len() == 0 {
                    e == CredifyError::UnknownOperation
                } else if b[0] == INITIALIZE_ISSUER {
                    match spec_parse_init(rest) {
                        None => e == CredifyError::CorruptRecord,
                        Some(d) => spec_initialize_issuer(m0, pid, auth, signed, ipda, d).0
                            == Err::<IssuerView, CredifyError>(e),
                    }
                } else if b[0] == CREATE_MERKLE_TREE {
                    match spec_parse_create_tree(rest) {
                        None => e == CredifyError::CorruptRecord,
                        Some(d) => spec_create_tree(m0, pid, auth, signed, ipda, tpda, d, ctx.now).0
                            == Err::<MerkleTreeView, CredifyError>(e),
                    }
                } else if b[0] == ISSUE_CREDENTIAL_VIA_CPI {
                    match spec_issue_checks(m0, auth, signed, ipda, tpda) {
                        Err(e0) => e == e0,
                        Ok(_) => spec_parse_issue(rest) is None && e
                            == CredifyError::CorruptRecord,
                    }
                } else if b[0] == VERIFY_ZK_PROOF {
                    e == CredifyError::NotImplemented
                } else if b[0] == TRANSFER_CREDENTIAL {
                    match spec_parse_transfer(rest) {
                        None => e == CredifyError::CorruptRecord,
                        Some(d) => !signed && e == CredifyError::Unauthorized,
                    }
                } else if b[0] == BURN_CREDENTIAL {
                    match spec_parse_burn(rest) {
                        None => e == CredifyError::CorruptRecord,
                        Some(d) => !signed && e == CredifyError::Unauthorized,
                    }
                } else {
                    e == CredifyError::UnknownOperation
                },
            }
        }),
{
    if instruction_data.len() == 0 {
        // an absent opcode is the same failure as an unrecognized one
        return Err(CredifyError::UnknownOperation);
    }
    let opcode = instruction_data[0];
    let rest = slice_subrange(instruction_data, 1, instruction_data.len());
    if opcode == INITIALIZE_ISSUER {
        match parse_initialize_issuer(rest) {
            None => Err(CredifyError::CorruptRecord),
            Some(d) => match process_initialize_issuer(ledger, ctx, d) {
                Ok(rec) => Ok(ProgramAction::IssuerInitialized(rec)),
                Err(e) => Err(e),
            },
        }
    } else if opcode == CREATE_MERKLE_TREE {
        match parse_create_merkle_tree(rest) {
            None => Err(CredifyError::CorruptRecord),
            Some(d) => match process_create_merkle_tree(ledger, ctx, d) {
                Ok(rec) => Ok(ProgramAction::TreeCreated(rec)),
                Err(e) => Err(e),
            },
        }
    } else if opcode == ISSUE_CREDENTIAL_VIA_CPI {
        match check_issue_request(ledger, ctx) {
            Err(e) => Err(e),
            Ok(_) => match parse_issue_credential(rest) {
                None => Err(CredifyError::CorruptRecord),
                Some(d) => match process_issue_credential_via_cpi(ledger, ctx, d) {
                    Ok(t) => Ok(ProgramAction::DelegateMint(t.0, t.1, t.2)),
                    Err(e) => Err(e),
                },
            },
        }
    } else if opcode == VERIFY_ZK_PROOF {
        process_verify_zk_proof(rest)?;
        Err(CredifyError::NotImplemented)
    } else if opcode == TRANSFER_CREDENTIAL {
        match parse_transfer_credential(rest) {
            None => Err(CredifyError::CorruptRecord),
            Some(d) => match transfer_credential(ctx, d) {
                Ok(op) => Ok(ProgramAction::DelegateLeafOperation(op)),
                Err(e) => Err(e),
            },
        }
    } else if opcode == BURN_CREDENTIAL {
        match parse_burn_credential(rest) {
            None => Err(CredifyError::CorruptRecord),
            Some(d) => match burn_credential(ctx, d) {
                Ok(op) => Ok(ProgramAction::DelegateLeafOperation(op)),
                Err(e) => Err(e),
            },
        }
    } else {
        Err(CredifyError::UnknownOperation)
    }
}


} // verus!
