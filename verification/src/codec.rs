//! The binary layout of the persisted records and of the operation
//! payloads, as executable encoders and decoders proved against a
//! mathematical description of the wire format.
//!
//! Every variable-length field is length-prefixed with 4 little-endian
//! bytes; scalars are little-endian and fixed-width; a boolean is one
//! byte, `1` for true and `0` for false; a decoder accepts a byte string
//! only when it is consumed exactly.

use vstd::prelude::*;

use crate::errors::CredifyError;
use crate::records::{
    CreateMerkleTreeData, CreateMerkleTreeView, InitializeIssuerData, InitializeIssuerView,
    IssueCredentialData, IssueCredentialView, IssuerData, IssuerView, MerkleTreeData,
    MerkleTreeView, issuer_view_wf, tree_view_wf,
};
use vstd::bytes::{
    lemma_auto_spec_u32_to_from_le_bytes, lemma_auto_spec_u64_to_from_le_bytes,
    spec_u32_from_le_bytes, spec_u32_to_le_bytes, spec_u64_from_le_bytes, spec_u64_to_le_bytes,
    u32_from_le_bytes, u32_to_le_bytes, u64_from_le_bytes, u64_to_le_bytes,
};
use vstd::slice::{slice_subrange, slice_to_vec};

verus! {

/// Encoding of one length-prefixed byte field.
pub open spec fn spec_ser_bytes(v: Seq<u8>) -> Seq<u8> {
    spec_u32_to_le_bytes(v.len() as u32) + v
}

/// Encoding of a boolean as one byte.
pub open spec fn spec_ser_bool(b: bool) -> Seq<u8> {
    seq![if b { 1u8 } else { 0u8 }]
}

/// Encoding of a signed 64-bit scalar: its two's-complement bytes.
pub open spec fn spec_ser_i64(x: i64) -> Seq<u8> {
    spec_u64_to_le_bytes(x as u64)
}

/// Decode one length-prefixed byte field starting at offset `i`:
/// the field and the offset just past it.
pub open spec fn spec_parse_pref(b: Seq<u8>, i: int) -> Option<(Seq<u8>, int)> {
    if 0 <= i && i + 4 <= b.len() {
        let n = spec_u32_from_le_bytes(b.subrange(i, i + 4)) as int;
        if i + 4 + n <= b.len() {
            Some((b.subrange(i + 4, i + 4 + n), i + 4 + n))
        } else {
            None
        }
    } else {
        None
    }
}

/// The full wire form of an issuer record.
pub open spec fn spec_ser_issuer(v: IssuerView) -> Seq<u8> {
    v.authority + spec_ser_bytes(v.name) + spec_ser_bytes(v.logo_uri) + spec_ser_bytes(v.website)
        + seq![v.bump] + spec_ser_bool(v.is_active) + spec_u64_to_le_bytes(v.credential_count)
        + spec_u64_to_le_bytes(v.merkle_tree_count)
}

/// Decode an issuer record; `None` unless the bytes are exactly one
/// well-formed record.
pub open spec fn spec_parse_issuer(b: Seq<u8>) -> Option<IssuerView> {
    if b.len() < 32 {
        None
    } else {
        match spec_parse_pref(b, 32) {
            Some((name, o2)) => match spec_parse_pref(b, o2) {
                Some((logo_uri, o3)) => match spec_parse_pref(b, o3) {
                    Some((website, o4)) => {
                        if o4 + 18 == b.len() && (b[o4 + 1] == 0 || b[o4 + 1] == 1) {
                            Some(
                                IssuerView {
                                    authority: b.subrange(0, 32),
                                    name,
                                    logo_uri,
                                    website,
                                    bump: b[o4],
                                    is_active: b[o4 + 1] == 1,
                                    credential_count: spec_u64_from_le_bytes(
                                        b.subrange(o4 + 2, o4 + 10),
                                    ),
                                    merkle_tree_count: spec_u64_from_le_bytes(
                                        b.subrange(o4 + 10, o4 + 18),
                                    ),
                                },
                            )
                        } else {
                            None
                        }
                    },
                    None => None,
                },
                None => None,
            },
            None => None,
        }
    }
}

/// The full wire form of a tree record.
pub open spec fn spec_ser_tree(v: MerkleTreeView) -> Seq<u8> {
    v.tree_authority + v.merkle_tree + spec_u32_to_le_bytes(v.max_depth) + spec_u32_to_le_bytes(
        v.max_buffer_size,
    ) + spec_ser_i64(v.created_at) + spec_ser_bool(v.is_active)
}

/// Decode a tree record; `None` unless the bytes are exactly one
/// well-formed record.
pub open spec fn spec_parse_tree(b: Seq<u8>) -> Option<MerkleTreeView> {
    if b.len() == 81 && (b[80] == 0 || b[80] == 1) {
        Some(
            MerkleTreeView {
                tree_authority: b.subrange(0, 32),
                merkle_tree: b.subrange(32, 64),
                max_depth: spec_u32_from_le_bytes(b.subrange(64, 68)),
                max_buffer_size: spec_u32_from_le_bytes(b.subrange(68, 72)),
                created_at: spec_u64_from_le_bytes(b.subrange(72, 80)) as i64,
                is_active: b[80] == 1,
            },
        )
    } else {
        None
    }
}

/// Append a slice to a byte buffer.
pub fn push_bytes(out: &mut Vec<u8>, b: &[u8])
    ensures
        final(out)@ == old(out)@ + b@,
{
    proof {
        assert(old(out)@ + b@.subrange(0, 0) =~= old(out)@);
    }
    let mut i: usize = 0;
    while i < b.len()
        invariant
            i <= b@.len(),
            out@ == old(out)@ + b@.subrange(0, i as int),
        decreases b@.len() - i,
    {
        out.push(b[i]);
        proof {
            assert(old(out)@ + b@.subrange(0, i as int) + seq![b@[i as int]] =~= old(out)@
                + b@.subrange(0, i + 1));
        }
        i = i + 1;
    }
    proof {
        assert(old(out)@ + b@.subrange(0, b@.len() as int) =~= old(out)@ + b@);
    }
}

/// Append one length-prefixed byte field.
pub fn push_pref(out: &mut Vec<u8>, v: &Vec<u8>)
    requires
        v@.len() <= u32::MAX,
    ensures
        final(out)@ == old(out)@ + spec_ser_bytes(v@),
{
    let len_bytes = u32_to_le_bytes(v.len() as u32);
    push_bytes(out, len_bytes.as_slice());
    push_bytes(out, v.as_slice());
    proof {
        assert(old(out)@ + spec_u32_to_le_bytes(v@.len() as u32) + v@ =~= old(out)@
            + spec_ser_bytes(v@));
    }
}

/// Append one little-endian 64-bit scalar.
pub fn push_u64(out: &mut Vec<u8>, x: u64)
    ensures
        final(out)@ == old(out)@ + spec_u64_to_le_bytes(x),
{
    let bytes = u64_to_le_bytes(x);
    push_bytes(out, bytes.as_slice());
}

/// Copy an exact 32-byte slice into a fresh address array.
pub fn copy32(data: &[u8]) -> (r: [u8; 32])
    requires
        data@.len() == 32,
    ensures
        r@ == data@,
{
    let mut out: [u8; 32] = [0; 32];
    let mut j: usize = 0;
    while j < 32
        invariant
            j <= 32,
            data@.len() == 32,
            forall|k: int| 0 <= k < j ==> out@[k] == data@[k],
        decreases 32 - j,
    {
        out[j] = data[j];
        j = j + 1;
    }
    proof {
        assert(out@ =~= data@);
    }
    out
}

/// Decode one length-prefixed byte field at offset `i`.
pub fn read_pref(data: &[u8], i: usize) -> (r: Option<(Vec<u8>, usize)>)
    ensures
        match r {
            Some(p) => spec_parse_pref(data@, i as int) == Some((p.0@, p.1 as int)) && i <= p.1
                <= data@.len(),
            None => spec_parse_pref(data@, i as int) is None,
        },
{
    if i <= data.len() && data.len() - i >= 4 {
        let n = u32_from_le_bytes(slice_subrange(data, i, i + 4));
        let rest = data.len() - (i + 4);
        if n as usize <= rest {
            let end = i + 4 + n as usize;
            let field = slice_to_vec(slice_subrange(data, i + 4, end));
            Some((field, end))
        } else {
            None
        }
    } else {
        None
    }
}

impl IssuerData {
    /// Encode this record into its wire form.
    pub fn to_bytes(&self) -> (out: Vec<u8>)
        requires
            issuer_view_wf(self@),
        ensures
            out@ == spec_ser_issuer(self@),
    {
        let mut out: Vec<u8> = Vec::new();
        push_bytes(&mut out, self.authority.as_slice());
        push_pref(&mut out, &self.name);
        push_pref(&mut out, &self.logo_uri);
        push_pref(&mut out, &self.website);
        out.push(self.bump);
        out.push(if self.is_active { 1 } else { 0 });
        push_u64(&mut out, self.credential_count);
        push_u64(&mut out, self.merkle_tree_count);
        proof {
            assert(out@ =~= spec_ser_issuer(self@));
        }
        out
    }

    /// Decode a record from its wire form; fails with `CorruptRecord`
    /// on anything else.
    pub fn try_from_slice(data: &[u8]) -> (r: Result<IssuerData, CredifyError>)
        ensures
            match r {
                Ok(rec) => spec_parse_issuer(data@) == Some(rec@) && issuer_view_wf(rec@),
                Err(e) => spec_parse_issuer(data@) is None && e == CredifyError::CorruptRecord,
            },
    {
        if data.len() < 32 {
            return Err(CredifyError::CorruptRecord);
        }
        let authority = copy32(slice_subrange(data, 0, 32));
        let (name, o2) = match read_pref(data, 32) {
            Some(p) => p,
            None => {
                return Err(CredifyError::CorruptRecord);
            },
        };
        let (logo_uri, o3) = match read_pref(data, o2) {
            Some(p) => p,
            None => {
                return Err(CredifyError::CorruptRecord);
            },
        };
        let (website, o4) = match read_pref(data, o3) {
            Some(p) => p,
            None => {
                return Err(CredifyError::CorruptRecord);
            },
        };
        if data.len() - o4 != 18 {
            return Err(CredifyError::CorruptRecord);
        }
        let bump = data[o4];
        let active_byte = data[o4 + 1];
        if active_byte != 0 && active_byte != 1 {
            return Err(CredifyError::CorruptRecord);
        }
        let credential_count = u64_from_le_bytes(slice_subrange(data, o4 + 2, o4 + 10));
        let merkle_tree_count = u64_from_le_bytes(slice_subrange(data, o4 + 10, o4 + 18));
        let rec = IssuerData {
            authority,
            name,
            logo_uri,
            website,
            bump,
            is_active: active_byte == 1,
            credential_count,
            merkle_tree_count,
        };
        Ok(rec)
    }
}

impl MerkleTreeData {
    /// Encode this record into its wire form.
    pub fn to_bytes(&self) -> (out: Vec<u8>)
        ensures
            out@ == spec_ser_tree(self@),
    {
        let mut out: Vec<u8> = Vec::new();
        push_bytes(&mut out, self.tree_authority.as_slice());
        push_bytes(&mut out, self.merkle_tree.as_slice());
        let depth_bytes = u32_to_le_bytes(self.max_depth);
        push_bytes(&mut out, depth_bytes.as_slice());
        let buffer_bytes = u32_to_le_bytes(self.max_buffer_size);
        push_bytes(&mut out, buffer_bytes.as_slice());
        push_u64(&mut out, self.created_at as u64);
        out.push(if self.is_active { 1 } else { 0 });
        proof {
            assert(out@ =~= spec_ser_tree(self@));
        }
        out
    }

    /// Decode a record from its wire form; fails with `CorruptRecord`
    /// on anything else.
    pub fn try_from_slice(data: &[u8]) -> (r: Result<MerkleTreeData, CredifyError>)
        ensures
            match r {
                Ok(rec) => spec_parse_tree(data@) == Some(rec@) && tree_view_wf(rec@),
                Err(e) => spec_parse_tree(data@) is None && e == CredifyError::CorruptRecord,
            },
    {
        if data.len() != 81 {
            return Err(CredifyError::CorruptRecord);
        }
        let active_byte = data[80];
        if active_byte != 0 && active_byte != 1 {
            return Err(CredifyError::CorruptRecord);
        }
        let rec = MerkleTreeData {
            tree_authority: copy32(slice_subrange(data, 0, 32)),
            merkle_tree: copy32(slice_subrange(data, 32, 64)),
            max_depth: u32_from_le_bytes(slice_subrange(data, 64, 68)),
            max_buffer_size: u32_from_le_bytes(slice_subrange(data, 68, 72)),
            created_at: u64_from_le_bytes(slice_subrange(data, 72, 80)) as i64,
            is_active: active_byte == 1,
        };
        Ok(rec)
    }
}

/// Whatever decodes at all decodes to a well-formed issuer view.
pub proof fn lemma_parse_issuer_wf(b: Seq<u8>)
    ensures
        spec_parse_issuer(b) matches Some(v) ==> issuer_view_wf(v),
{
}

/// Decoding inverts encoding: an issuer record written to its wire form
/// reads back as itself.
pub proof fn lemma_issuer_round_trip(v: IssuerView)
    requires
        issuer_view_wf(v),
    ensures
        spec_parse_issuer(spec_ser_issuer(v)) == Some(v),
{
    lemma_auto_spec_u32_to_from_le_bytes();
    lemma_auto_spec_u64_to_from_le_bytes();
    let b = spec_ser_issuer(v);
    let n1 = v.name.len() as int;
    let n2 = v.logo_uri.len() as int;
    let n3 = v.website.len() as int;
    let o2 = 32 + 4 + n1;
    let o3 = o2 + 4 + n2;
    let o4 = o3 + 4 + n3;
    assert(b.len() == o4 + 18);
    assert(b.subrange(0, 32) =~= v.authority);
    assert(b.subrange(32, 36) =~= spec_u32_to_le_bytes(v.name.len() as u32));
    assert(b.subrange(36, o2) =~= v.name);
    assert(spec_parse_pref(b, 32) == Some((v.name, o2)));
    assert(b.subrange(o2, o2 + 4) =~= spec_u32_to_le_bytes(v.logo_uri.len() as u32));
    assert(b.subrange(o2 + 4, o3) =~= v.logo_uri);
    assert(spec_parse_pref(b, o2) == Some((v.logo_uri, o3)));
    assert(b.subrange(o3, o3 + 4) =~= spec_u32_to_le_bytes(v.website.len() as u32));
    assert(b.subrange(o3 + 4, o4) =~= v.website);
    assert(spec_parse_pref(b, o3) == Some((v.website, o4)));
    assert(b[o4] == v.bump);
    assert(b[o4 + 1] == (if v.is_active { 1u8 } else { 0u8 }));
    assert(b.subrange(o4 + 2, o4 + 10) =~= spec_u64_to_le_bytes(v.credential_count));
    assert(b.subrange(o4 + 10, o4 + 18) =~= spec_u64_to_le_bytes(v.merkle_tree_count));
    assert(spec_parse_issuer(b) matches Some(w) && w =~= v);
}

/// Decoding inverts encoding for tree records as well.
pub proof fn lemma_tree_round_trip(v: MerkleTreeView)
    requires
        tree_view_wf(v),
    ensures
        spec_parse_tree(spec_ser_tree(v)) == Some(v),
{
    lemma_auto_spec_u32_to_from_le_bytes();
    lemma_auto_spec_u64_to_from_le_bytes();
    let b = spec_ser_tree(v);
    assert(b.len() == 81);
    assert(b.subrange(0, 32) =~= v.tree_authority);
    assert(b.subrange(32, 64) =~= v.merkle_tree);
    assert(b.subrange(64, 68) =~= spec_u32_to_le_bytes(v.max_depth));
    assert(b.subrange(68, 72) =~= spec_u32_to_le_bytes(v.max_buffer_size));
    assert(b.subrange(72, 80) =~= spec_u64_to_le_bytes(v.created_at as u64));
    assert(b[80] == (if v.is_active { 1u8 } else { 0u8 }));
    let ts = v.created_at;
    assert(((ts as u64) as i64) == ts) by (bit_vector);
    assert(spec_parse_tree(b) matches Some(w) && w =~= v);
}

} // verus!
