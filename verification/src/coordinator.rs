//! The credential lifecycle coordinator: validating caller authority and
//! account relationships, building the delegated operation for the
//! external compressed-storage service, and reconciling the issuer's
//! counters with the service's reported outcome.
//!
//! The service call itself happens outside this library; the coordinator
//! produces the exact request (and the derived signer it must be
//! authorized with), and a separate step folds the service's outcome
//! back into the store, so that a failed delegation changes nothing.

use vstd::prelude::*;

use crate::codec::spec_ser_issuer;
use crate::errors::CredifyError;
use crate::ledger::Ledger;
use crate::pda::{DerivedSigner, spec_signer_seeds};
use crate::records::{
    BurnCredentialData, CallContext, IssueCredentialData, IssueCredentialView, IssuerData,
    IssuerView, TransferCredentialData, issue_view_wf, issuer_view_wf,
};
use crate::registry::{load_issuer, load_tree, spec_load_issuer, spec_load_tree};

verus! {

/// One account named by a delegated instruction, with its access flags.
#[derive(Clone, Debug)]
pub struct InstructionAccount {
    pub pubkey: [u8; 32],
    pub is_signer: bool,
    pub is_writable: bool,
}

/// A delegated mint request: the program to invoke, the accounts it
/// sees, and its serialized payload.
#[derive(Clone, Debug)]
pub struct MintInstruction {
    pub program_id: [u8; 32],
    pub accounts: Vec<InstructionAccount>,
    pub data: Vec<u8>,
}

/// The storage-service program invoked for a mint names no further
/// accounts beyond these six; the last is the system program, whose
/// address is all zero bytes.
pub open spec fn spec_system_program_id() -> Seq<u8> {
    Seq::new(32, |i: int| 0u8)
}

/// Payload of the delegated mint: a zero opcode, the subject's identity,
/// the credential name, and the metadata reference.
pub open spec fn spec_mint_data(d: IssueCredentialView) -> Seq<u8> {
    seq![0u8] + d.student_wallet + d.credential_name + d.metadata_uri
}

/// The exact shape of a well-built mint request.
pub open spec fn spec_mint_instruction_ok(
    r: MintInstruction,
    bubblegum_program: Seq<u8>,
    leaf_owner: Seq<u8>,
    merkle_tree: Seq<u8>,
    tree_authority: Seq<u8>,
    payer: Seq<u8>,
    d: IssueCredentialView,
) -> bool {
    &&& r.program_id@ == bubblegum_program
    &&& r.data@ == spec_mint_data(d)
    &&& r.accounts@.len() == 6
    &&& r.accounts@[0].pubkey@ == leaf_owner && !r.accounts@[0].is_signer
        && !r.accounts@[0].is_writable
    &&& r.accounts@[1].pubkey@ == merkle_tree && !r.accounts@[1].is_signer
        && !r.accounts@[1].is_writable
    &&& r.accounts@[2].pubkey@ == tree_authority && r.accounts@[2].is_signer
        && !r.accounts@[2].is_writable
    &&& r.accounts@[3].pubkey@ == payer && r.accounts@[3].is_signer && r.accounts@[3].is_writable
    &&& r.accounts@[4].pubkey@ == bubblegum_program && !r.accounts@[4].is_signer
        && !r.accounts@[4].is_writable
    &&& r.accounts@[5].pubkey@ == spec_system_program_id() && !r.accounts@[5].is_signer
        && !r.accounts@[5].is_writable
}

/// Build the delegated mint request for one credential.
pub fn create_simplified_mint_instruction(
    bubblegum_program: &[u8; 32],
    leaf_owner: &[u8; 32],
    merkle_tree: &[u8; 32],
    tree_authority: &[u8; 32],
    payer: &[u8; 32],
    data: &IssueCredentialData,
) -> (r: MintInstruction)
    ensures
        spec_mint_instruction_ok(
            r,
            bubblegum_program@,
            leaf_owner@,
            merkle_tree@,
            tree_authority@,
            payer@,
            data@,
        ),
{
    let mut payload: Vec<u8> = Vec::new();
    payload.push(0);
    crate::codec::push_bytes(&mut payload, data.student_wallet.as_slice());
    crate::codec::push_bytes(&mut payload, data.credential_name.as_slice());
    crate::codec::push_bytes(&mut payload, data.metadata_uri.as_slice());
    proof {
        assert(payload@ =~= spec_mint_data(data@));
    }
    let system_program: [u8; 32] = [0; 32];
    proof {
        assert(system_program@ =~= spec_system_program_id());
    }
    let mut accounts: Vec<InstructionAccount> = Vec::new();
    accounts.push(
        InstructionAccount { pubkey: *leaf_owner, is_signer: false, is_writable: false },
    );
    accounts.push(
        InstructionAccount { pubkey: *merkle_tree, is_signer: false, is_writable: false },
    );
    accounts.push(
        InstructionAccount { pubkey: *tree_authority, is_signer: true, is_writable: false },
    );
    accounts.push(InstructionAccount { pubkey: *payer, is_signer: true, is_writable: true });
    accounts.push(
        InstructionAccount { pubkey: *bubblegum_program, is_signer: false, is_writable: false },
    );
    accounts.push(
        InstructionAccount { pubkey: system_program, is_signer: false, is_writable: false },
    );
    MintInstruction { program_id: *bubblegum_program, accounts, data: payload }
}

/// The validation chain of an issue request, in order: the caller must
/// sign; the issuer record must load; the caller must be its authority;
/// the tree record must load; its authority must be the caller; the
/// tree must be active; the issuer must be active. An inactive tree
/// answers `InactiveTree`, and a tree-authority mismatch `Unauthorized`,
/// whatever the issuer's own active flag. On success, the loaded issuer
/// record.
pub open spec fn spec_issue_checks(
    m: Map<Seq<u8>, Seq<u8>>,
    caller: Seq<u8>,
    is_signer: bool,
    issuer_pda: Seq<u8>,
    tree_record_addr: Seq<u8>,
) -> Result<IssuerView, CredifyError> {
    if !is_signer {
        Err(CredifyError::Unauthorized)
    } else {
        match spec_load_issuer(m, issuer_pda) {
            Err(e) => Err(e),
            Ok(iss) => {
                if iss.authority != caller {
                    Err(CredifyError::Unauthorized)
                } else {
                    match spec_load_tree(m, tree_record_addr) {
                        Err(e) => Err(e),
                        Ok(tree) => {
                            if tree.tree_authority != caller {
                                Err(CredifyError::Unauthorized)
                            } else if !tree.is_active {
                                Err(CredifyError::InactiveTree)
                            } else if !iss.is_active {
                                Err(CredifyError::InactiveIssuer)
                            } else {
                                Ok(iss)
                            }
                        },
                    }
                }
            },
        }
    }
}

/// Run the issue validation chain alone, without touching the payload:
/// the dispatcher answers authority questions before it reads a byte of
/// the request body.
pub fn check_issue_request(ledger: &Ledger, ctx: &CallContext) -> (r: Result<
    IssuerData,
    CredifyError,
>)
    ensures
        match r {
            Ok(iss) => spec_issue_checks(
                ledger@,
                ctx.authority@,
                ctx.authority_is_signer,
                ctx.issuer_pda@,
                ctx.merkle_tree_account@,
            ) == Ok::<IssuerView, CredifyError>(iss@) && issuer_view_wf(iss@),
            Err(e) => spec_issue_checks(
                ledger@,
                ctx.authority@,
                ctx.authority_is_signer,
                ctx.issuer_pda@,
                ctx.merkle_tree_account@,
            ) == Err::<IssuerView, CredifyError>(e),
        },
{
    if !ctx.authority_is_signer {
        return Err(CredifyError::Unauthorized);
    }
    let issuer = match load_issuer(ledger, &ctx.issuer_pda) {
        Ok(i) => i,
        Err(e) => {
            return Err(e);
        },
    };
    if !crate::records::key_eq(&issuer.authority, &ctx.authority) {
        return Err(CredifyError::Unauthorized);
    }
    let tree = match load_tree(ledger, &ctx.merkle_tree_account) {
        Ok(t) => t,
        Err(e) => {
            return Err(e);
        },
    };
    if !crate::records::key_eq(&tree.tree_authority, &ctx.authority) {
        return Err(CredifyError::Unauthorized);
    }
    if !tree.is_active {
        return Err(CredifyError::InactiveTree);
    }
    if !issuer.is_active {
        return Err(CredifyError::InactiveIssuer);
    }
    Ok(issuer)
}

/// Validate an issue request and build the delegated mint. The store is
/// only read: counters move in [`apply_issue_outcome`], after the
/// service reports success. The request is authorized by the derived
/// signer carrying the issuer's stored bump, never the caller's key.
pub fn process_issue_credential_via_cpi(
    ledger: &Ledger,
    ctx: &CallContext,
    data: IssueCredentialData,
) -> (r: Result<(MintInstruction, DerivedSigner, IssuerData), CredifyError>)
    requires
        issue_view_wf(data@),
    ensures
        match r {
            Ok(t) => {
                &&& spec_issue_checks(
                    ledger@,
                    ctx.authority@,
                    ctx.authority_is_signer,
                    ctx.issuer_pda@,
                    ctx.merkle_tree_account@,
                ) == Ok::<IssuerView, CredifyError>(t.2@)
                &&& issuer_view_wf(t.2@)
                &&& spec_mint_instruction_ok(
                    t.0,
                    ctx.bubblegum_program@,
                    data@.student_wallet,
                    ctx.merkle_tree@,
                    ctx.tree_authority@,
                    ctx.payer@,
                    data@,
                )
                &&& t.1.seeds@.map_values(|s: Vec<u8>| s@) == spec_signer_seeds(
                    ctx.authority@,
                    t.2.bump,
                )
            },
            Err(e) => spec_issue_checks(
                ledger@,
                ctx.authority@,
                ctx.authority_is_signer,
                ctx.issuer_pda@,
                ctx.merkle_tree_account@,
            ) == Err::<IssuerView, CredifyError>(e),
        },
{
    let issuer = match check_issue_request(ledger, ctx) {
        Ok(i) => i,
        Err(e) => {
            return Err(e);
        },
    };
    let leaf_owner = data.student_wallet;
    let mint = create_simplified_mint_instruction(
        &ctx.bubblegum_program,
        &leaf_owner,
        &ctx.merkle_tree,
        &ctx.tree_authority,
        &ctx.payer,
        &data,
    );
    let signer = DerivedSigner::new(&ctx.authority, issuer.bump);
    Ok((mint, signer, issuer))
}

/// Fold the storage service's reported outcome back into the store: on
/// success the issuer's credential counter advances by one; on failure
/// the failure kind is surfaced unchanged and the store does not move.
pub fn apply_issue_outcome(
    ledger: &mut Ledger,
    issuer_pda: &[u8; 32],
    issuer: IssuerData,
    service_result: Result<(), u32>,
) -> (r: Result<IssuerData, CredifyError>)
    requires
        issuer_view_wf(issuer@),
        old(ledger)@.contains_key(issuer_pda@),
        old(ledger)@[issuer_pda@] == spec_ser_issuer(issuer@),
        issuer@.credential_count < u64::MAX,
    ensures
        match service_result {
            Ok(()) => {
                let bumped = IssuerView {
                    credential_count: (issuer@.credential_count + 1) as u64,
                    ..issuer@
                };
                &&& r matches Ok(rec) && rec@ == bumped
                &&& final(ledger)@ == old(ledger)@.insert(issuer_pda@, spec_ser_issuer(bumped))
            },
            Err(code) => {
                &&& r matches Err(e) && e == CredifyError::DelegatedServiceFailure(code)
                &&& final(ledger)@ == old(ledger)@
            },
        },
{
    match service_result {
        Ok(()) => {
            let updated = IssuerData { credential_count: issuer.credential_count + 1, ..issuer };
            let bytes = updated.to_bytes();
            ledger.put(issuer_pda, bytes);
            Ok(updated)
        },
        Err(code) => Err(CredifyError::DelegatedServiceFailure(code)),
    }
}

/// The operation kinds a credential leaf supports.
#[derive(Clone, Copy, Debug, PartialEq, Eq, Structural)]
pub enum OperationKind {
    Issue,
    Transfer,
    Burn,
}

/// A delegated transfer or burn request: the leaf's proof material, its
/// position, and (for a transfer) the owner it moves to. Ownership of
/// the leaf is checked by the storage service against this proof; the
/// coordinator does not recompute the root.
#[derive(Clone, Debug)]
pub struct CredentialOperation {
    pub kind: OperationKind,
    pub tree: [u8; 32],
    pub root: [u8; 32],
    pub data_hash: [u8; 32],
    pub creator_hash: [u8; 32],
    pub nonce: u64,
    pub index: u32,
    pub new_owner: Option<[u8; 32]>,
}

/// Build the delegated transfer for a leaf. The caller must sign as the
/// current leaf owner; everything else is forwarded for the service's
/// own proof check. No local counter moves.
pub fn transfer_credential(ctx: &CallContext, data: TransferCredentialData) -> (r: Result<
    CredentialOperation,
    CredifyError,
>)
    ensures
        !ctx.authority_is_signer ==> (r matches Err(e) && e == CredifyError::Unauthorized),
        ctx.authority_is_signer ==> (r matches Ok(op) && op.kind == OperationKind::Transfer
            && op.tree@ == ctx.merkle_tree@ && op.root@ == data.root@ && op.data_hash@
            == data.data_hash@ && op.creator_hash@ == data.creator_hash@ && op.nonce == data.nonce
            && op.index == data.index && op.new_owner == Some(data.new_owner)),
{
    if !ctx.authority_is_signer {
        return Err(CredifyError::Unauthorized);
    }
    Ok(
        CredentialOperation {
            kind: OperationKind::Transfer,
            tree: ctx.merkle_tree,
            root: data.root,
            data_hash: data.data_hash,
            creator_hash: data.creator_hash,
            nonce: data.nonce,
            index: data.index,
            new_owner: Some(data.new_owner),
        },
    )
}

/// Build the delegated burn for a leaf. The caller must sign as the
/// current leaf owner. Burn status lives only in the external leaf
/// ledger; no local record changes.
pub fn burn_credential(ctx: &CallContext, data: BurnCredentialData) -> (r: Result<
    CredentialOperation,
    CredifyError,
>)
    ensures
        !ctx.authority_is_signer ==> (r matches Err(e) && e == CredifyError::Unauthorized),
        ctx.authority_is_signer ==> (r matches Ok(op) && op.kind == OperationKind::Burn && op.tree@
            == ctx.merkle_tree@ && op.root@ == data.root@ && op.data_hash@ == data.data_hash@
            && op.creator_hash@ == data.creator_hash@ && op.nonce == data.nonce && op.index
            == data.index && op.new_owner is None),
{
    if !ctx.authority_is_signer {
        return Err(CredifyError::Unauthorized);
    }
    Ok(
        CredentialOperation {
            kind: OperationKind::Burn,
            tree: ctx.merkle_tree,
            root: data.root,
            data_hash: data.data_hash,
            creator_hash: data.creator_hash,
            nonce: data.nonce,
            index: data.index,
            new_owner: None,
        },
    )
}

/// Fold the service's outcome of a transfer or burn: no local state
/// exists to move, so success is success and a failure is surfaced
/// unchanged.
pub fn apply_delegated_outcome(service_result: Result<(), u32>) -> (r: Result<(), CredifyError>)
    ensures
        match service_result {
            Ok(()) => r matches Ok(u) && u == (),
            Err(code) => r matches Err(e) && e == CredifyError::DelegatedServiceFailure(code),
        },
{
    match service_result {
        Ok(()) => Ok(()),
        Err(code) => Err(CredifyError::DelegatedServiceFailure(code)),
    }
}

/// The proof-verification hook. Intentionally unimplemented: it reports
/// so on every input, and never a pass or a fail.
pub fn process_verify_zk_proof(instruction_data: &[u8]) -> (r: Result<(), CredifyError>)
    ensures
        r matches Err(e) && e == CredifyError::NotImplemented,
{
    let _ = instruction_data;
    Err(CredifyError::NotImplemented)
}

} // verus!
