//! End-to-end tests against real stores: envelope decoding, session
//! reconstruction, fault isolation and the cipher loader.

use key_extractor::cipher::import_cipher_blob;
use key_extractor::codec::deserialize_value;
use key_extractor::data::ExtractError;
use key_extractor::extract::{extract_keys_fault_tolerant, process_entry, INBOUND_GROUP_TABLE_NAME};
use key_extractor::session::{export_session_key, export_sessions, reconstruct_and_export};

use matrix_sdk_crypto::olm::{ExportedRoomKey, InboundGroupSession};
use matrix_sdk_crypto::store::CryptoStore;
use matrix_sdk_store_encryption::StoreCipher;

/// Builds the JSON of a valid exported room key with fresh megolm material.
fn exported_key_json(room_id: &str) -> String {
    let config = vodozemac::megolm::SessionConfig::version_1();
    let group = vodozemac::megolm::GroupSession::new(config);
    let session_key = group.session_key();
    let mut inbound = vodozemac::megolm::InboundGroupSession::new(
        &session_key,
        vodozemac::megolm::SessionConfig::version_1(),
    );
    let session_id = inbound.session_id();
    let exported = inbound.export_at(0).expect("session exports at index zero");
    let account = vodozemac::olm::Account::new();
    format!(
        r#"{{"algorithm":"m.megolm.v1.aes-sha2","room_id":"{}","sender_key":"{}","session_id":"{}","session_key":"{}","sender_claimed_keys":{{"ed25519":"{}"}},"forwarding_curve25519_key_chain":[]}}"#,
        room_id,
        account.curve25519_key().to_base64(),
        session_id,
        exported.to_base64(),
        account.ed25519_key().to_base64(),
    )
}

fn make_session(room_id: &str) -> InboundGroupSession {
    let key: ExportedRoomKey = serde_json::from_str(&exported_key_json(room_id)).unwrap();
    InboundGroupSession::from_export(&key).unwrap()
}

fn pickle_bytes(session: &InboundGroupSession) -> Vec<u8> {
    let pickle = futures_executor::block_on(session.pickle());
    serde_json::to_vec(&pickle).unwrap()
}

fn temp_store() -> sled::Db {
    sled::Config::new().temporary(true).open().unwrap()
}

#[test]
fn test_envelope_round_trip_plain() {
    let session = make_session("!round:example.org");
    let expected = export_session_key(&session);
    let bytes = pickle_bytes(&session);

    let snapshot = deserialize_value(&bytes, None).expect("plain bytes decode");
    let rebuilt = reconstruct_and_export(snapshot).expect("snapshot reconstructs");

    assert_eq!(rebuilt.room_id, expected.room_id);
    assert_eq!(rebuilt.session_id, expected.session_id);
    assert_eq!(rebuilt.algorithm, expected.algorithm);
    assert_eq!(rebuilt.session_key, expected.session_key);
    assert_eq!(rebuilt.sender_key, expected.sender_key);
    assert_eq!(rebuilt.sender_claimed_keys, expected.sender_claimed_keys);
    assert_eq!(
        rebuilt.forwarding_curve25519_key_chain,
        expected.forwarding_curve25519_key_chain
    );
}

#[test]
fn test_envelope_round_trip_encrypted() {
    let session = make_session("!sealed:example.org");
    let expected = export_session_key(&session);
    let pickle = futures_executor::block_on(session.pickle());

    let cipher = StoreCipher::new().unwrap();
    let encrypted = cipher.encrypt_value(&pickle).unwrap();

    let snapshot = deserialize_value(&encrypted, Some(&cipher)).expect("envelope decrypts");
    let rebuilt = reconstruct_and_export(snapshot).expect("snapshot reconstructs");

    assert_eq!(rebuilt.room_id, expected.room_id);
    assert_eq!(rebuilt.session_id, expected.session_id);
    assert_eq!(rebuilt.session_key, expected.session_key);
}

#[test]
fn test_absent_blob_means_no_cipher() {
    let outcome = import_cipher_blob(None, "anything").expect("no blob means plaintext mode");
    assert!(outcome.is_none());
}

#[test]
fn test_cipher_blob_import_success_and_failure() {
    let cipher = StoreCipher::new().unwrap();
    let blob = cipher.export("pw").unwrap();
    assert!(import_cipher_blob(Some(blob.as_slice()), "pw").unwrap().is_some());
    assert!(import_cipher_blob(Some(blob.as_slice()), "other").is_err());
}

#[test]
fn test_cipher_absence_equals_direct_decoding() {
    let session = make_session("!plain:example.org");
    let bytes = pickle_bytes(&session);
    let via_reader = deserialize_value(&bytes, None).expect("plain bytes decode");
    let direct: matrix_sdk_crypto::olm::PickledInboundGroupSession =
        serde_json::from_slice(&bytes).unwrap();
    let a = serde_json::to_value(&via_reader).unwrap();
    let b = serde_json::to_value(&direct).unwrap();
    assert_eq!(a, b);
}

#[test]
fn test_plain_decode_rejects_garbage() {
    assert!(deserialize_value(b"not json at all", None).is_err());
    let cipher = StoreCipher::new().unwrap();
    assert!(deserialize_value(b"not an envelope", Some(&cipher)).is_err());
}

#[test]
fn test_process_entry_read_error() {
    let outcome = process_entry(5, Err("lost page".to_owned()), None);
    let failure = outcome.err().expect("read errors become failures");
    assert_eq!(failure.index, 5);
    assert_eq!(failure.key_hex, "<read error>");
    assert_eq!(failure.error, "Sled read error: lost page");
}

#[test]
fn test_failure_key_hex_exact() {
    let entry = Ok((vec![0x00u8, 0xff, 0x6b, 0x65, 0x79], b"garbage".to_vec()));
    let failure = process_entry(0, entry, None).err().expect("garbage cannot decode");
    assert_eq!(failure.key_hex, "00ff6b6579");

    let entry = Ok((b"key".to_vec(), b"garbage".to_vec()));
    let failure = process_entry(1, entry, None).err().expect("garbage cannot decode");
    assert_eq!(failure.key_hex, "6b6579");
}

#[test]
fn test_missing_collection_is_fatal() {
    // a store without the session collection does not match the
    // expected schema: the run aborts instead of reporting an empty
    // success
    let db = temp_store();
    let err = extract_keys_fault_tolerant(&db, None).err().expect("missing collection is fatal");
    match err {
        ExtractError::CollectionOpen(_) => {}
        other => panic!("unexpected error class: {}", other.cause()),
    }
}

#[test]
fn test_empty_store() {
    let db = temp_store();
    db.open_tree(INBOUND_GROUP_TABLE_NAME).unwrap();
    let outcome = extract_keys_fault_tolerant(&db, None).expect("setup succeeds");
    assert_eq!(outcome.keys.len(), 0);
    assert_eq!(outcome.failures.len(), 0);
    assert_eq!(outcome.entries_examined, 0);
}

#[test]
fn test_fault_isolation() {
    let db = temp_store();
    let tree = db.open_tree(INBOUND_GROUP_TABLE_NAME).unwrap();
    // sled iterates keys in lexicographic order
    tree.insert(b"a", pickle_bytes(&make_session("!one:example.org"))).unwrap();
    tree.insert(b"b", b"corrupted bytes".to_vec()).unwrap();
    tree.insert(b"c", pickle_bytes(&make_session("!two:example.org"))).unwrap();

    let outcome = extract_keys_fault_tolerant(&db, None).expect("setup succeeds");
    assert_eq!(outcome.entries_examined, 3);
    assert_eq!(outcome.keys.len(), 2);
    assert_eq!(outcome.failures.len(), 1);
    assert_eq!(outcome.failures[0].index, 1);
    assert_eq!(outcome.failures[0].key_hex, "62");
    assert!(outcome.failures[0].error.starts_with("Deserialization failed: "));
    assert_eq!(outcome.keys[0].room_id, "!one:example.org");
    assert_eq!(outcome.keys[1].room_id, "!two:example.org");
}

#[test]
fn test_encrypted_store_extraction() {
    let db = temp_store();
    let cipher = StoreCipher::new().unwrap();
    db.insert(b"store_cipher", cipher.export("hunter2").unwrap()).unwrap();

    let tree = db.open_tree(INBOUND_GROUP_TABLE_NAME).unwrap();
    let session = make_session("!vault:example.org");
    let pickle = futures_executor::block_on(session.pickle());
    tree.insert(b"a", cipher.encrypt_value(&pickle).unwrap()).unwrap();

    let outcome = extract_keys_fault_tolerant(&db, Some("hunter2")).expect("setup succeeds");
    assert_eq!(outcome.keys.len(), 1);
    assert_eq!(outcome.failures.len(), 0);
    assert_eq!(outcome.keys[0].room_id, "!vault:example.org");
    assert_eq!(outcome.keys[0].session_key, export_session_key(&session).session_key);
}

#[test]
fn test_wrong_passphrase() {
    let db = temp_store();
    let cipher = StoreCipher::new().unwrap();
    db.insert(b"store_cipher", cipher.export("correct").unwrap()).unwrap();
    let tree = db.open_tree(INBOUND_GROUP_TABLE_NAME).unwrap();
    tree.insert(b"a", pickle_bytes(&make_session("!never:example.org"))).unwrap();

    let err = extract_keys_fault_tolerant(&db, Some("wrong")).err().expect("import must fail");
    match err {
        ExtractError::CipherImport(_) => {}
        other => panic!("unexpected error class: {}", other.cause()),
    }
}

#[test]
fn test_absent_passphrase_is_empty() {
    // an absent passphrase means the empty one, which is a valid,
    // distinct configuration
    let db = temp_store();
    let cipher = StoreCipher::new().unwrap();
    db.insert(b"store_cipher", cipher.export("").unwrap()).unwrap();
    let tree = db.open_tree(INBOUND_GROUP_TABLE_NAME).unwrap();
    let pickle = futures_executor::block_on(make_session("!empty:example.org").pickle());
    tree.insert(b"a", cipher.encrypt_value(&pickle).unwrap()).unwrap();

    let outcome = extract_keys_fault_tolerant(&db, None).expect("empty passphrase imports");
    assert_eq!(outcome.keys.len(), 1);
}

#[test]
fn test_determinism() {
    let db = temp_store();
    let tree = db.open_tree(INBOUND_GROUP_TABLE_NAME).unwrap();
    for (name, room) in [(b"k1", "!d1:example.org"), (b"k2", "!d2:example.org")] {
        tree.insert(name, pickle_bytes(&make_session(room))).unwrap();
    }

    let first = extract_keys_fault_tolerant(&db, None).unwrap();
    let second = extract_keys_fault_tolerant(&db, None).unwrap();
    assert_eq!(first.keys.len(), second.keys.len());
    for (a, b) in first.keys.iter().zip(second.keys.iter()) {
        assert_eq!(a.room_id, b.room_id);
        assert_eq!(a.session_id, b.session_id);
        assert_eq!(a.algorithm, b.algorithm);
        assert_eq!(a.session_key, b.session_key);
        assert_eq!(a.sender_key, b.sender_key);
        assert_eq!(a.sender_claimed_keys, b.sender_claimed_keys);
        assert_eq!(a.forwarding_curve25519_key_chain, b.forwarding_curve25519_key_chain);
    }
}

#[test]
fn test_strict_export_sessions() {
    let sessions = vec![make_session("!s1:example.org"), make_session("!s2:example.org")];
    let records = export_sessions(&sessions);
    assert_eq!(records.len(), 2);
    assert_eq!(records[0].room_id, "!s1:example.org");
    assert_eq!(records[1].room_id, "!s2:example.org");
}

#[test]
fn test_strict_accessor_aborts_on_corrupt_store() {
    let db = temp_store();
    // the validated accessor walks its own collection, which carries a
    // different name than the raw walker's
    let tree = db.open_tree("inbound_group_sessions").unwrap();
    tree.insert(b"a", pickle_bytes(&make_session("!ok:example.org"))).unwrap();
    tree.insert(b"b", b"corrupted bytes".to_vec()).unwrap();

    let store = matrix_sdk_sled::SledCryptoStore::open_with_database(db, None).unwrap();
    let result = futures_executor::block_on(store.get_inbound_group_sessions());
    assert!(result.is_err());
}
