use credify::coordinator::{
    apply_delegated_outcome, apply_issue_outcome, burn_credential, create_simplified_mint_instruction, process_issue_credential_via_cpi,
    process_verify_zk_proof, transfer_credential, OperationKind,
};
use credify::errors::CredifyError;
use credify::instruction::process_instruction;
use credify::ledger::Ledger;
use credify::pda::{derive_issuer_address, derive_tree_address};
use credify::records::{
    BurnCredentialData, CallContext, CreateMerkleTreeData, InitializeIssuerData,
    IssueCredentialData, IssuerData, MerkleTreeData, TransferCredentialData,
};
use credify::registry::{load_issuer, load_tree, process_create_merkle_tree, process_initialize_issuer};

fn key(n: u8) -> [u8; 32] {
    [n; 32]
}

const PROGRAM_ID: [u8; 32] = [11; 32];

fn base_ctx(authority: [u8; 32]) -> CallContext {
    CallContext {
        program_id: PROGRAM_ID,
        authority,
        authority_is_signer: true,
        issuer_pda: [0; 32],
        merkle_tree_account: [0; 32],
        merkle_tree: key(40),
        tree_authority: key(41),
        payer: key(42),
        bubblegum_program: key(43),
        now: 1_700_000_000,
    }
}

fn init_data() -> InitializeIssuerData {
    InitializeIssuerData {
        name: b"Acme University".to_vec(),
        logo_uri: b"https://acme.example/logo.png".to_vec(),
        website: b"https://acme.example".to_vec(),
    }
}

fn issue_data(tree: [u8; 32]) -> IssueCredentialData {
    IssueCredentialData {
        student_wallet: key(77),
        credential_name: b"Diploma".to_vec(),
        credential_type: b"degree".to_vec(),
        skill_business: b"accounting".to_vec(),
        skill_tech: b"databases".to_vec(),
        metadata_uri: b"https://acme.example/meta/1".to_vec(),
        merkle_tree: tree,
    }
}

/// Set up a ledger with an initialized issuer; returns its context.
fn initialized(authority: [u8; 32]) -> (Ledger, CallContext) {
    let mut ledger = Ledger::new();
    let mut ctx = base_ctx(authority);
    let (pda, _bump) = derive_issuer_address(&PROGRAM_ID, &authority).unwrap();
    ctx.issuer_pda = pda;
    process_initialize_issuer(&mut ledger, &ctx, init_data()).unwrap();
    (ledger, ctx)
}

#[test]
fn derivation_matches_the_ledger_runtime() {
    let authority = key(7);
    let (pda, bump) = derive_issuer_address(&PROGRAM_ID, &authority).unwrap();
    let pid = solana_program::pubkey::Pubkey::new_from_array(PROGRAM_ID);
    let (expected, expected_bump) =
        solana_program::pubkey::Pubkey::find_program_address(&[b"issuer", &authority], &pid);
    assert_eq!(pda, expected.to_bytes());
    assert_eq!(bump, expected_bump);
    assert_ne!(pda, authority);

    let (tpda, tbump) = derive_tree_address(&PROGRAM_ID, &authority, 5).unwrap();
    let (texpected, texpected_bump) = solana_program::pubkey::Pubkey::find_program_address(
        &[b"tree", &authority, &5u64.to_le_bytes()],
        &pid,
    );
    assert_eq!(tpda, texpected.to_bytes());
    assert_eq!(tbump, texpected_bump);
}

#[test]
fn initialize_issuer_writes_a_fresh_record() {
    let authority = key(7);
    let (ledger, ctx) = initialized(authority);
    let rec = load_issuer(&ledger, &ctx.issuer_pda).unwrap();
    assert_eq!(rec.authority, authority);
    assert_eq!(rec.name, b"Acme University".to_vec());
    assert!(rec.is_active);
    assert_eq!(rec.credential_count, 0);
    assert_eq!(rec.merkle_tree_count, 0);
}

#[test]
fn second_initialize_fails_and_changes_nothing() {
    let authority = key(7);
    let (mut ledger, ctx) = initialized(authority);
    let before = load_issuer(&ledger, &ctx.issuer_pda).unwrap();
    let other = InitializeIssuerData {
        name: b"Other".to_vec(),
        logo_uri: Vec::new(),
        website: Vec::new(),
    };
    let err = process_initialize_issuer(&mut ledger, &ctx, other).unwrap_err();
    assert_eq!(err, CredifyError::AlreadyExists);
    let after = load_issuer(&ledger, &ctx.issuer_pda).unwrap();
    assert_eq!(after, before);
}

#[test]
fn initialize_requires_a_signer_and_the_derived_address() {
    let authority = key(7);
    let mut ledger = Ledger::new();
    let mut ctx = base_ctx(authority);
    let (pda, _) = derive_issuer_address(&PROGRAM_ID, &authority).unwrap();
    ctx.issuer_pda = pda;
    ctx.authority_is_signer = false;
    assert_eq!(
        process_initialize_issuer(&mut ledger, &ctx, init_data()).unwrap_err(),
        CredifyError::Unauthorized
    );
    ctx.authority_is_signer = true;
    ctx.issuer_pda = key(99);
    assert_eq!(
        process_initialize_issuer(&mut ledger, &ctx, init_data()).unwrap_err(),
        CredifyError::InvalidAddress
    );
}

#[test]
fn three_trees_in_sequence_get_indices_zero_one_two() {
    let authority = key(7);
    let (mut ledger, mut ctx) = initialized(authority);
    let mut pdas = Vec::new();
    for i in 0..3u64 {
        let (tree_pda, _) = derive_tree_address(&PROGRAM_ID, &authority, i).unwrap();
        ctx.merkle_tree_account = tree_pda;
        ctx.now = 1_700_000_000 + i as i64;
        let data = CreateMerkleTreeData {
            max_depth: 14 + i as u32,
            max_buffer_size: 64,
            tree_name: b"batch".to_vec(),
        };
        let rec = process_create_merkle_tree(&mut ledger, &ctx, data).unwrap();
        assert_eq!(rec.tree_authority, authority);
        assert_eq!(rec.merkle_tree, tree_pda);
        assert!(rec.is_active);
        pdas.push(tree_pda);
        let issuer = load_issuer(&ledger, &ctx.issuer_pda).unwrap();
        assert_eq!(issuer.merkle_tree_count, i + 1);
    }
    for (i, pda) in pdas.iter().enumerate() {
        let rec = load_tree(&ledger, pda).unwrap();
        assert_eq!(rec.max_depth, 14 + i as u32);
        assert_eq!(rec.created_at, 1_700_000_000 + i as i64);
    }
}

#[test]
fn create_tree_rejects_a_wrong_address_or_caller() {
    let authority = key(7);
    let (mut ledger, mut ctx) = initialized(authority);
    let data = CreateMerkleTreeData {
        max_depth: 14,
        max_buffer_size: 64,
        tree_name: b"t".to_vec(),
    };
    ctx.merkle_tree_account = key(88);
    assert_eq!(
        process_create_merkle_tree(&mut ledger, &ctx, data.clone()).unwrap_err(),
        CredifyError::InvalidAddress
    );
    let mut wrong = ctx;
    wrong.authority = key(8);
    let (tree_pda, _) = derive_tree_address(&PROGRAM_ID, &key(8), 0).unwrap();
    wrong.merkle_tree_account = tree_pda;
    assert_eq!(
        process_create_merkle_tree(&mut ledger, &wrong, data).unwrap_err(),
        CredifyError::Unauthorized
    );
}

#[test]
fn issue_then_wrong_caller_scenario() {
    // Authority A initializes, creates tree 0 (depth 14, buffer 64), and
    // issues a "Diploma" credential; the counter becomes 1. Authority B's
    // identical attempt is refused and the counter stays at 1.
    let a = key(7);
    let (mut ledger, mut ctx) = initialized(a);
    let (tree_pda, _) = derive_tree_address(&PROGRAM_ID, &a, 0).unwrap();
    ctx.merkle_tree_account = tree_pda;
    let tree = process_create_merkle_tree(
        &mut ledger,
        &ctx,
        CreateMerkleTreeData {
            max_depth: 14,
            max_buffer_size: 64,
            tree_name: b"trees".to_vec(),
        },
    )
    .unwrap();
    assert_eq!(tree.max_depth, 14);
    assert_eq!(tree.max_buffer_size, 64);

    let (mint, signer, issuer) =
        process_issue_credential_via_cpi(&ledger, &ctx, issue_data(ctx.merkle_tree)).unwrap();
    assert_eq!(mint.program_id, ctx.bubblegum_program);
    let mut expected_data = vec![0u8];
    expected_data.extend_from_slice(&key(77));
    expected_data.extend_from_slice(b"Diploma");
    expected_data.extend_from_slice(b"https://acme.example/meta/1");
    assert_eq!(mint.data, expected_data);
    assert_eq!(mint.accounts.len(), 6);
    assert_eq!(mint.accounts[5].pubkey, [0u8; 32]);
    assert_eq!(signer.seeds[0], b"issuer".to_vec());
    assert_eq!(signer.seeds[1], a.to_vec());
    assert_eq!(signer.seeds[2], vec![issuer.bump]);

    apply_issue_outcome(&mut ledger, &ctx.issuer_pda, issuer, Ok(())).unwrap();
    assert_eq!(load_issuer(&ledger, &ctx.issuer_pda).unwrap().credential_count, 1);

    let b = key(9);
    let mut ctx_b = ctx;
    ctx_b.authority = b;
    let err =
        process_issue_credential_via_cpi(&ledger, &ctx_b, issue_data(ctx.merkle_tree)).unwrap_err();
    assert_eq!(err, CredifyError::Unauthorized);
    assert_eq!(load_issuer(&ledger, &ctx.issuer_pda).unwrap().credential_count, 1);
}

#[test]
fn issue_on_an_inactive_tree_fails_and_counts_stand() {
    let a = key(7);
    let (mut ledger, mut ctx) = initialized(a);
    let tree = MerkleTreeData {
        tree_authority: a,
        merkle_tree: key(50),
        max_depth: 14,
        max_buffer_size: 64,
        created_at: 5,
        is_active: false,
    };
    let tree_addr = key(51);
    ledger.put(&tree_addr, tree.to_bytes());
    ctx.merkle_tree_account = tree_addr;
    let err = process_issue_credential_via_cpi(&ledger, &ctx, issue_data(key(50))).unwrap_err();
    assert_eq!(err, CredifyError::InactiveTree);
    assert_eq!(load_issuer(&ledger, &ctx.issuer_pda).unwrap().credential_count, 0);
}

#[test]
fn issue_under_an_inactive_issuer_fails() {
    let a = key(7);
    let mut ledger = Ledger::new();
    let mut ctx = base_ctx(a);
    let (pda, _) = derive_issuer_address(&PROGRAM_ID, &a).unwrap();
    ctx.issuer_pda = pda;
    let issuer = process_initialize_issuer(&mut ledger, &ctx, init_data()).unwrap();
    let active_tree = MerkleTreeData {
        tree_authority: a,
        merkle_tree: key(50),
        max_depth: 14,
        max_buffer_size: 64,
        created_at: 5,
        is_active: true,
    };
    let tree_addr = key(51);
    ledger.put(&tree_addr, active_tree.to_bytes());
    ctx.merkle_tree_account = tree_addr;
    let deactivated = IssuerData {
        is_active: false,
        ..issuer
    };
    ledger.put(&ctx.issuer_pda, deactivated.to_bytes());
    let err = process_issue_credential_via_cpi(&ledger, &ctx, issue_data(key(50))).unwrap_err();
    assert_eq!(err, CredifyError::InactiveIssuer);
}

#[test]
fn inactive_tree_answers_even_when_the_issuer_is_inactive_too() {
    let a = key(7);
    let mut ledger = Ledger::new();
    let mut ctx = base_ctx(a);
    let (pda, _) = derive_issuer_address(&PROGRAM_ID, &a).unwrap();
    ctx.issuer_pda = pda;
    let issuer = process_initialize_issuer(&mut ledger, &ctx, init_data()).unwrap();
    ledger.put(&ctx.issuer_pda, IssuerData { is_active: false, ..issuer }.to_bytes());
    let dead_tree = MerkleTreeData {
        tree_authority: a,
        merkle_tree: key(50),
        max_depth: 14,
        max_buffer_size: 64,
        created_at: 5,
        is_active: false,
    };
    let tree_addr = key(52);
    ledger.put(&tree_addr, dead_tree.to_bytes());
    ctx.merkle_tree_account = tree_addr;
    let err = process_issue_credential_via_cpi(&ledger, &ctx, issue_data(key(50))).unwrap_err();
    assert_eq!(err, CredifyError::InactiveTree);
}

#[test]
fn wrong_tree_authority_answers_even_when_the_issuer_is_inactive() {
    let a = key(7);
    let mut ledger = Ledger::new();
    let mut ctx = base_ctx(a);
    let (pda, _) = derive_issuer_address(&PROGRAM_ID, &a).unwrap();
    ctx.issuer_pda = pda;
    let issuer = process_initialize_issuer(&mut ledger, &ctx, init_data()).unwrap();
    ledger.put(&ctx.issuer_pda, IssuerData { is_active: false, ..issuer }.to_bytes());
    let foreign_tree = MerkleTreeData {
        tree_authority: key(9),
        merkle_tree: key(50),
        max_depth: 14,
        max_buffer_size: 64,
        created_at: 5,
        is_active: true,
    };
    let tree_addr = key(53);
    ledger.put(&tree_addr, foreign_tree.to_bytes());
    ctx.merkle_tree_account = tree_addr;
    let err = process_issue_credential_via_cpi(&ledger, &ctx, issue_data(key(50))).unwrap_err();
    assert_eq!(err, CredifyError::Unauthorized);
}

#[test]
fn delegated_failure_is_surfaced_and_nothing_moves() {
    let a = key(7);
    let (mut ledger, mut ctx) = initialized(a);
    let (tree_pda, _) = derive_tree_address(&PROGRAM_ID, &a, 0).unwrap();
    ctx.merkle_tree_account = tree_pda;
    process_create_merkle_tree(
        &mut ledger,
        &ctx,
        CreateMerkleTreeData {
            max_depth: 3,
            max_buffer_size: 8,
            tree_name: Vec::new(),
        },
    )
    .unwrap();
    let (_mint, _signer, issuer) =
        process_issue_credential_via_cpi(&ledger, &ctx, issue_data(ctx.merkle_tree)).unwrap();
    let err = apply_issue_outcome(&mut ledger, &ctx.issuer_pda, issuer, Err(6)).unwrap_err();
    assert_eq!(err, CredifyError::DelegatedServiceFailure(6));
    assert_eq!(load_issuer(&ledger, &ctx.issuer_pda).unwrap().credential_count, 0);
}

#[test]
fn transfer_and_burn_build_delegated_operations() {
    let owner = key(30);
    let ctx = base_ctx(owner);
    let data = TransferCredentialData {
        root: key(1),
        data_hash: key(2),
        creator_hash: key(3),
        nonce: 4,
        index: 5,
        new_owner: key(6),
    };
    let op = transfer_credential(&ctx, data).unwrap();
    assert_eq!(op.kind, OperationKind::Transfer);
    assert_eq!(op.tree, ctx.merkle_tree);
    assert_eq!(op.new_owner, Some(key(6)));
    assert_eq!(op.nonce, 4);
    assert_eq!(op.index, 5);

    let burn = BurnCredentialData {
        root: key(1),
        data_hash: key(2),
        creator_hash: key(3),
        nonce: 4,
        index: 5,
    };
    let op = burn_credential(&ctx, burn).unwrap();
    assert_eq!(op.kind, OperationKind::Burn);
    assert_eq!(op.new_owner, None);

    let mut unsigned = base_ctx(owner);
    unsigned.authority_is_signer = false;
    let data2 = TransferCredentialData {
        root: key(1),
        data_hash: key(2),
        creator_hash: key(3),
        nonce: 4,
        index: 5,
        new_owner: key(6),
    };
    assert_eq!(
        transfer_credential(&unsigned, data2).unwrap_err(),
        CredifyError::Unauthorized
    );
}

#[test]
fn create_tree_short_form_uses_an_empty_name() {
    let authority = key(7);
    let (mut ledger, mut ctx) = initialized(authority);
    let (tree_pda, _) = derive_tree_address(&PROGRAM_ID, &authority, 0).unwrap();
    ctx.merkle_tree_account = tree_pda;
    let rec = credify::registry::create_tree(&mut ledger, &ctx, 20, 256).unwrap();
    assert_eq!(rec.max_depth, 20);
    assert_eq!(rec.max_buffer_size, 256);
    assert_eq!(load_issuer(&ledger, &ctx.issuer_pda).unwrap().merkle_tree_count, 1);
}

#[test]
fn delegated_transfer_outcomes_are_forwarded() {
    assert_eq!(apply_delegated_outcome(Ok(())), Ok(()));
    assert_eq!(
        apply_delegated_outcome(Err(9)).unwrap_err(),
        CredifyError::DelegatedServiceFailure(9)
    );
}

#[test]
fn verify_proof_is_never_a_pass() {
    assert_eq!(process_verify_zk_proof(&[]).unwrap_err(), CredifyError::NotImplemented);
    assert_eq!(
        process_verify_zk_proof(&[1, 2, 3, 4]).unwrap_err(),
        CredifyError::NotImplemented
    );
    let mut ledger = Ledger::new();
    let ctx = base_ctx(key(7));
    assert_eq!(
        process_instruction(&mut ledger, &ctx, &[2, 9, 9]).unwrap_err(),
        CredifyError::NotImplemented
    );
}

#[test]
fn mint_instruction_flags_follow_the_service_convention() {
    let data = issue_data(key(50));
    let mint = create_simplified_mint_instruction(
        &key(43),
        &key(77),
        &key(50),
        &key(41),
        &key(42),
        &data,
    );
    assert_eq!(mint.accounts[0].pubkey, key(77));
    assert!(!mint.accounts[0].is_signer && !mint.accounts[0].is_writable);
    assert!(mint.accounts[2].is_signer && !mint.accounts[2].is_writable);
    assert!(mint.accounts[3].is_signer && mint.accounts[3].is_writable);
}
