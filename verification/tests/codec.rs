use phactory_api::blocks::{Header, HeaderToSync, ParaId, StorageChanges};
use phactory_api::chain_client::{
    first_storage_changes, get_parachain_heads, paras_heads_key, storage_value_key_vec, Error,
};
use phactory_api::codec::{
    encode_header, encode_header_to_sync, scale_decode_bytes, scale_encode_bytes,
};

fn header(number: u32, hash: u64, parent_hash: u64, state_root: u64) -> Header {
    Header { number, hash, parent_hash, state_root }
}

#[test]
fn header_encoding_is_parent_number_root() {
    let h = header(1, 7, 5, 9);
    let mut expected: Vec<u8> = Vec::new();
    expected.extend_from_slice(&5u64.to_le_bytes());
    expected.extend_from_slice(&1u32.to_le_bytes());
    expected.extend_from_slice(&9u64.to_le_bytes());
    assert_eq!(encode_header(&h), expected);
}

#[test]
fn header_to_sync_encoding_tags_the_justification() {
    let h = header(2, 8, 7, 10);
    let bare = HeaderToSync { header: h, justification: None };
    let mut expected = encode_header(&h);
    expected.push(0);
    assert_eq!(encode_header_to_sync(&bare), expected);

    let with = HeaderToSync { header: h, justification: Some(vec![0xAB, 0xCD]) };
    let mut expected = encode_header(&h);
    expected.push(1);
    expected.extend_from_slice(&2u64.to_le_bytes());
    expected.extend_from_slice(&[0xAB, 0xCD]);
    assert_eq!(encode_header_to_sync(&with), expected);
}

#[test]
fn para_id_encodes_little_endian() {
    assert_eq!(ParaId::new(0x0102_0304).encode(), vec![0x04, 0x03, 0x02, 0x01]);
    assert_eq!(ParaId::new(0).encode(), vec![0, 0, 0, 0]);
}

#[test]
fn scale_encoding_prefixes_the_compact_length() {
    // An empty byte string encodes as the single compact byte 0.
    assert_eq!(scale_encode_bytes(&vec![]), vec![0x00]);
    // A short string's compact length is its length shifted left twice.
    assert_eq!(scale_encode_bytes(&vec![9, 8, 7, 6]), vec![0x10, 9, 8, 7, 6]);
    // 100 bytes need the two-byte compact mode.
    let long = vec![1u8; 100];
    let encoded = scale_encode_bytes(&long);
    assert_eq!(encoded[0], (100u8 << 2) | 0b01);
    assert_eq!(encoded[1], 100 >> 6);
    assert_eq!(encoded.len(), 102);
}

#[test]
fn scale_decoding_inverts_encoding() {
    let payload = b"parachain head bytes".to_vec();
    let encoded = scale_encode_bytes(&payload);
    assert_ne!(encoded, payload);
    assert_eq!(scale_decode_bytes(&encoded), Some(payload));
    assert_eq!(scale_decode_bytes(&vec![]), None);
}

#[test]
fn parachain_heads_decode_strips_one_layer() {
    let head = b"head".to_vec();
    let blob = scale_encode_bytes(&head);
    assert_eq!(get_parachain_heads(blob), Ok(head));
    assert_eq!(get_parachain_heads(vec![]), Err(Error::FailedToDecode));
}

#[test]
fn storage_value_key_matches_twox_hashing() {
    let key = storage_value_key_vec("Timestamp", "Now");
    let mut expected = sp_crypto_hashing::twox_128(b"Timestamp").to_vec();
    expected.extend_from_slice(&sp_crypto_hashing::twox_128(b"Now"));
    assert_eq!(key, expected);
}

#[test]
fn paras_heads_key_matches_twox_hashing() {
    let id = ParaId::new(2035);
    let key = paras_heads_key(&id);
    let id_encoded = 2035u32.to_le_bytes().to_vec();
    let mut expected = sp_crypto_hashing::twox_128(b"Paras").to_vec();
    expected.extend_from_slice(&sp_crypto_hashing::twox_128(b"Heads"));
    expected.extend_from_slice(&sp_crypto_hashing::twox_64(&id_encoded));
    expected.extend_from_slice(&id_encoded);
    assert_eq!(key, expected);
}

#[test]
fn first_storage_changes_picks_the_queried_block() {
    let empty: Vec<StorageChanges> = vec![];
    assert!(matches!(first_storage_changes(empty), Err(Error::BlockNotFound)));

    let first = StorageChanges {
        main_storage_changes: vec![(b"k".to_vec(), None)],
        child_storage_changes: vec![],
    };
    let second = StorageChanges { main_storage_changes: vec![], child_storage_changes: vec![] };
    let picked = first_storage_changes(vec![first, second]).unwrap();
    assert_eq!(picked.main_storage_changes, vec![(b"k".to_vec(), None)]);
    assert!(picked.child_storage_changes.is_empty());
}
