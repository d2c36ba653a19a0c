//! The persisted records (issuer, tree) and the transient payloads of each
//! operation, together with their mathematical views and well-formedness.
//!
//! An address (a public key of the surrounding ledger) is held as its 32
//! raw bytes; display fields and references are held as raw byte strings,
//! length-prefixed on the wire.

use vstd::prelude::*;

verus! {

/// One authorized credential issuer, stored at `derive(["issuer", authority])`.
#[derive(Clone, Debug, PartialEq, Eq)]
pub struct IssuerData {
    pub authority: [u8; 32],
    pub name: Vec<u8>,
    pub logo_uri: Vec<u8>,
    pub website: Vec<u8>,
    /// The derivation nonce of the record's own address.
    pub bump: u8,
    pub is_active: bool,
    pub credential_count: u64,
    pub merkle_tree_count: u64,
}

/// Mathematical view of an [`IssuerData`] record.
#[verifier::ext_equal]
pub ghost struct IssuerView {
    pub authority: Seq<u8>,
    pub name: Seq<u8>,
    pub logo_uri: Seq<u8>,
    pub website: Seq<u8>,
    pub bump: u8,
    pub is_active: bool,
    pub credential_count: u64,
    pub merkle_tree_count: u64,
}

impl View for IssuerData {
    type V = IssuerView;

    open spec fn view(&self) -> IssuerView {
        IssuerView {
            authority: self.authority@,
            name: self.name@,
            logo_uri: self.logo_uri@,
            website: self.website@,
            bump: self.bump,
            is_active: self.is_active,
            credential_count: self.credential_count,
            merkle_tree_count: self.merkle_tree_count,
        }
    }
}

/// Every variable-length field fits its 4-byte length prefix.
pub open spec fn issuer_view_wf(v: IssuerView) -> bool {
    &&& v.authority.len() == 32
    &&& v.name.len() <= u32::MAX
    &&& v.logo_uri.len() <= u32::MAX
    &&& v.website.len() <= u32::MAX
}

/// One compressed-ledger tree segment, stored at
/// `derive(["tree", authority, tree_index])`.
#[derive(Clone, Debug, PartialEq, Eq)]
pub struct MerkleTreeData {
    pub tree_authority: [u8; 32],
    /// The address of the external storage-service account holding the leaves.
    pub merkle_tree: [u8; 32],
    pub max_depth: u32,
    pub max_buffer_size: u32,
    pub created_at: i64,
    pub is_active: bool,
}

/// Mathematical view of a [`MerkleTreeData`] record.
#[verifier::ext_equal]
pub ghost struct MerkleTreeView {
    pub tree_authority: Seq<u8>,
    pub merkle_tree: Seq<u8>,
    pub max_depth: u32,
    pub max_buffer_size: u32,
    pub created_at: i64,
    pub is_active: bool,
}

impl View for MerkleTreeData {
    type V = MerkleTreeView;

    open spec fn view(&self) -> MerkleTreeView {
        MerkleTreeView {
            tree_authority: self.tree_authority@,
            merkle_tree: self.merkle_tree@,
            max_depth: self.max_depth,
            max_buffer_size: self.max_buffer_size,
            created_at: self.created_at,
            is_active: self.is_active,
        }
    }
}

pub open spec fn tree_view_wf(v: MerkleTreeView) -> bool {
    &&& v.tree_authority.len() == 32
    &&& v.merkle_tree.len() == 32
}

/// Payload of the initialize-issuer operation.
#[derive(Clone, Debug, PartialEq, Eq)]
pub struct InitializeIssuerData {
    pub name: Vec<u8>,
    pub logo_uri: Vec<u8>,
    pub website: Vec<u8>,
}

#[verifier::ext_equal]
pub ghost struct InitializeIssuerView {
    pub name: Seq<u8>,
    pub logo_uri: Seq<u8>,
    pub website: Seq<u8>,
}

impl View for InitializeIssuerData {
    type V = InitializeIssuerView;

    open spec fn view(&self) -> InitializeIssuerView {
        InitializeIssuerView { name: self.name@, logo_uri: self.logo_uri@, website: self.website@ }
    }
}

pub open spec fn init_view_wf(v: InitializeIssuerView) -> bool {
    &&& v.name.len() <= u32::MAX
    &&& v.logo_uri.len() <= u32::MAX
    &&& v.website.len() <= u32::MAX
}

/// Payload of the create-tree operation.
#[derive(Clone, Debug, PartialEq, Eq)]
pub struct CreateMerkleTreeData {
    pub max_depth: u32,
    pub max_buffer_size: u32,
    pub tree_name: Vec<u8>,
}

#[verifier::ext_equal]
pub ghost struct CreateMerkleTreeView {
    pub max_depth: u32,
    pub max_buffer_size: u32,
    pub tree_name: Seq<u8>,
}

impl View for CreateMerkleTreeData {
    type V = CreateMerkleTreeView;

    open spec fn view(&self) -> CreateMerkleTreeView {
        CreateMerkleTreeView {
            max_depth: self.max_depth,
            max_buffer_size: self.max_buffer_size,
            tree_name: self.tree_name@,
        }
    }
}

pub open spec fn create_tree_view_wf(v: CreateMerkleTreeView) -> bool {
    v.tree_name.len() <= u32::MAX
}

/// Payload of the issue-credential operation.
#[derive(Clone, Debug, PartialEq, Eq)]
pub struct IssueCredentialData {
    pub student_wallet: [u8; 32],
    pub credential_name: Vec<u8>,
    pub credential_type: Vec<u8>,
    pub skill_business: Vec<u8>,
    pub skill_tech: Vec<u8>,
    pub metadata_uri: Vec<u8>,
    pub merkle_tree: [u8; 32],
}

#[verifier::ext_equal]
pub ghost struct IssueCredentialView {
    pub student_wallet: Seq<u8>,
    pub credential_name: Seq<u8>,
    pub credential_type: Seq<u8>,
    pub skill_business: Seq<u8>,
    pub skill_tech: Seq<u8>,
    pub metadata_uri: Seq<u8>,
    pub merkle_tree: Seq<u8>,
}

impl View for IssueCredentialData {
    type V = IssueCredentialView;

    open spec fn view(&self) -> IssueCredentialView {
        IssueCredentialView {
            student_wallet: self.student_wallet@,
            credential_name: self.credential_name@,
            credential_type: self.credential_type@,
            skill_business: self.skill_business@,
            skill_tech: self.skill_tech@,
            metadata_uri: self.metadata_uri@,
            merkle_tree: self.merkle_tree@,
        }
    }
}

pub open spec fn issue_view_wf(v: IssueCredentialView) -> bool {
    &&& v.student_wallet.len() == 32
    &&& v.merkle_tree.len() == 32
    &&& v.credential_name.len() <= u32::MAX
    &&& v.credential_type.len() <= u32::MAX
    &&& v.skill_business.len() <= u32::MAX
    &&& v.skill_tech.len() <= u32::MAX
    &&& v.metadata_uri.len() <= u32::MAX
}

/// Payload of the transfer operation: the leaf proof material, its
/// position, and the owner the leaf moves to.
#[derive(Clone, Debug, PartialEq, Eq)]
pub struct TransferCredentialData {
    pub root: [u8; 32],
    pub data_hash: [u8; 32],
    pub creator_hash: [u8; 32],
    pub nonce: u64,
    pub index: u32,
    pub new_owner: [u8; 32],
}

#[verifier::ext_equal]
pub ghost struct TransferCredentialView {
    pub root: Seq<u8>,
    pub data_hash: Seq<u8>,
    pub creator_hash: Seq<u8>,
    pub nonce: u64,
    pub index: u32,
    pub new_owner: Seq<u8>,
}

impl View for TransferCredentialData {
    type V = TransferCredentialView;

    open spec fn view(&self) -> TransferCredentialView {
        TransferCredentialView {
            root: self.root@,
            data_hash: self.data_hash@,
            creator_hash: self.creator_hash@,
            nonce: self.nonce,
            index: self.index,
            new_owner: self.new_owner@,
        }
    }
}

/// Payload of the burn operation: the leaf proof material and its position.
#[derive(Clone, Debug, PartialEq, Eq)]
pub struct BurnCredentialData {
    pub root: [u8; 32],
    pub data_hash: [u8; 32],
    pub creator_hash: [u8; 32],
    pub nonce: u64,
    pub index: u32,
}

#[verifier::ext_equal]
pub ghost struct BurnCredentialView {
    pub root: Seq<u8>,
    pub data_hash: Seq<u8>,
    pub creator_hash: Seq<u8>,
    pub nonce: u64,
    pub index: u32,
}

impl View for BurnCredentialData {
    type V = BurnCredentialView;

    open spec fn view(&self) -> BurnCredentialView {
        BurnCredentialView {
            root: self.root@,
            data_hash: self.data_hash@,
            creator_hash: self.creator_hash@,
            nonce: self.nonce,
            index: self.index,
        }
    }
}

/// The per-request environment a handler sees: the program's own id, the
/// caller and its signer flag, the addresses of the accounts the request
/// names, and the current time. The runtime supplies these; which fields
/// an operation reads depends on the opcode.
#[derive(Clone, Copy)]
pub struct CallContext {
    pub program_id: [u8; 32],
    /// The caller: the issuer's controlling authority, or the leaf owner
    /// for transfer and burn.
    pub authority: [u8; 32],
    pub authority_is_signer: bool,
    /// Address of the issuer record.
    pub issuer_pda: [u8; 32],
    /// Address of the tree record (existing, or to be created).
    pub merkle_tree_account: [u8; 32],
    /// Address of the external storage-service tree account.
    pub merkle_tree: [u8; 32],
    /// The storage service's own authority account for the tree.
    pub tree_authority: [u8; 32],
    pub payer: [u8; 32],
    /// Address of the delegated storage-service program.
    pub bubblegum_program: [u8; 32],
    /// The current time, as the runtime's clock reports it.
    pub now: i64,
}

/// Compare two addresses byte for byte.
pub fn key_eq(a: &[u8; 32], b: &[u8; 32]) -> (r: bool)
    ensures
        r == (a@ == b@),
{
    let mut i: usize = 0;
    while i < 32
        invariant
            i <= 32,
            forall|j: int| 0 <= j < i ==> a@[j] == b@[j],
        decreases 32 - i,
    {
        if a[i] != b[i] {
            return false;
        }
        i = i + 1;
    }
    proof {
        assert(a@ =~= b@);
    }
    true
}

} // verus!
