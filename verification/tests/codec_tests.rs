use credify::codec::push_bytes;
use credify::errors::CredifyError;
use credify::records::{IssuerData, MerkleTreeData};

fn key(n: u8) -> [u8; 32] {
    [n; 32]
}

fn sample_issuer() -> IssuerData {
    IssuerData {
        authority: key(7),
        name: b"Acme University".to_vec(),
        logo_uri: b"https://acme.example/logo.png".to_vec(),
        website: b"https://acme.example".to_vec(),
        bump: 254,
        is_active: true,
        credential_count: 3,
        merkle_tree_count: 2,
    }
}

#[test]
fn issuer_record_round_trip() {
    let rec = sample_issuer();
    let bytes = rec.to_bytes();
    let back = IssuerData::try_from_slice(bytes.as_slice()).unwrap();
    assert_eq!(back, rec);
}

#[test]
fn issuer_record_layout_is_exact() {
    let rec = IssuerData {
        authority: key(1),
        name: b"ab".to_vec(),
        logo_uri: Vec::new(),
        website: b"w".to_vec(),
        bump: 9,
        is_active: false,
        credential_count: 1,
        merkle_tree_count: 256,
    };
    let bytes = rec.to_bytes();
    let mut expected: Vec<u8> = Vec::new();
    expected.extend_from_slice(&[1; 32]);
    expected.extend_from_slice(&2u32.to_le_bytes());
    expected.extend_from_slice(b"ab");
    expected.extend_from_slice(&0u32.to_le_bytes());
    expected.extend_from_slice(&1u32.to_le_bytes());
    expected.extend_from_slice(b"w");
    expected.push(9);
    expected.push(0);
    expected.extend_from_slice(&1u64.to_le_bytes());
    expected.extend_from_slice(&256u64.to_le_bytes());
    assert_eq!(bytes, expected);
}

#[test]
fn tree_record_round_trip_negative_timestamp() {
    let rec = MerkleTreeData {
        tree_authority: key(3),
        merkle_tree: key(4),
        max_depth: 14,
        max_buffer_size: 64,
        created_at: -12345,
        is_active: true,
    };
    let bytes = rec.to_bytes();
    assert_eq!(bytes.len(), 81);
    let back = MerkleTreeData::try_from_slice(bytes.as_slice()).unwrap();
    assert_eq!(back, rec);
}

#[test]
fn truncated_issuer_record_is_corrupt() {
    let rec = sample_issuer();
    let bytes = rec.to_bytes();
    let err = IssuerData::try_from_slice(&bytes[..bytes.len() - 1]).unwrap_err();
    assert_eq!(err, CredifyError::CorruptRecord);
}

#[test]
fn trailing_bytes_make_issuer_record_corrupt() {
    let rec = sample_issuer();
    let mut bytes = rec.to_bytes();
    bytes.push(0);
    let err = IssuerData::try_from_slice(bytes.as_slice()).unwrap_err();
    assert_eq!(err, CredifyError::CorruptRecord);
}

#[test]
fn bad_boolean_byte_is_corrupt() {
    let rec = sample_issuer();
    let mut bytes = rec.to_bytes();
    let active_at = bytes.len() - 17;
    bytes[active_at] = 2;
    let err = IssuerData::try_from_slice(bytes.as_slice()).unwrap_err();
    assert_eq!(err, CredifyError::CorruptRecord);

    let tree = MerkleTreeData {
        tree_authority: key(3),
        merkle_tree: key(4),
        max_depth: 1,
        max_buffer_size: 1,
        created_at: 0,
        is_active: false,
    };
    let mut tb = tree.to_bytes();
    tb[80] = 7;
    assert_eq!(
        MerkleTreeData::try_from_slice(tb.as_slice()).unwrap_err(),
        CredifyError::CorruptRecord
    );
}

#[test]
fn wrong_length_tree_record_is_corrupt() {
    let err = MerkleTreeData::try_from_slice(&[0u8; 80]).unwrap_err();
    assert_eq!(err, CredifyError::CorruptRecord);
}

#[test]
fn push_bytes_appends() {
    let mut out: Vec<u8> = vec![1, 2];
    push_bytes(&mut out, &[3, 4, 5]);
    assert_eq!(out, vec![1, 2, 3, 4, 5]);
}
