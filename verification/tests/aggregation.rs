//! Tests for the result aggregator: grouping by room and the two
//! output documents.

use key_extractor::aggregate::{build_failed_output, organize_keys};
use key_extractor::data::{ExportedKeyData, FailedSession};

fn make_key(room_id: &str, session_id: &str) -> ExportedKeyData {
    ExportedKeyData {
        room_id: room_id.to_owned(),
        session_id: session_id.to_owned(),
        algorithm: "m.megolm.v1.aes-sha2".to_owned(),
        session_key: format!("sk-{session_id}"),
        sender_key: "sender".to_owned(),
        sender_claimed_keys: vec![("ed25519".to_owned(), "claimed".to_owned())],
        forwarding_curve25519_key_chain: Vec::new(),
    }
}

#[test]
fn test_extraction_output_serialization() {
    let output = organize_keys(Vec::new(), 0);
    assert_eq!(output.version, 1);
    assert_eq!(output.total_keys, 0);
    assert_eq!(output.failed_keys, 0);
    assert!(output.keys_by_room.is_empty());
    assert!(output.all_keys.is_empty());
}

#[test]
fn test_organize_keys_groups_by_room() {
    let keys = vec![
        make_key("!a:example.org", "s1"),
        make_key("!b:example.org", "s2"),
        make_key("!a:example.org", "s3"),
    ];
    let output = organize_keys(keys, 2);

    assert_eq!(output.version, 1);
    assert_eq!(output.total_keys, 3);
    assert_eq!(output.failed_keys, 2);

    assert_eq!(output.all_keys.len(), 3);
    assert_eq!(output.all_keys[0].session_id, "s1");
    assert_eq!(output.all_keys[1].session_id, "s2");
    assert_eq!(output.all_keys[2].session_id, "s3");

    assert_eq!(output.keys_by_room.len(), 2);
    assert_eq!(output.keys_by_room[0].0, "!a:example.org");
    assert_eq!(output.keys_by_room[0].1.len(), 2);
    assert_eq!(output.keys_by_room[0].1[0].session_id, "s1");
    assert_eq!(output.keys_by_room[0].1[1].session_id, "s3");
    assert_eq!(output.keys_by_room[1].0, "!b:example.org");
    assert_eq!(output.keys_by_room[1].1.len(), 1);
    assert_eq!(output.keys_by_room[1].1[0].session_id, "s2");
}

#[test]
fn test_grouping_partition() {
    let keys = vec![
        make_key("!x:example.org", "s1"),
        make_key("!y:example.org", "s2"),
        make_key("!x:example.org", "s3"),
        make_key("!z:example.org", "s4"),
    ];
    let output = organize_keys(keys, 0);

    // every key of the flat list appears in exactly one bucket,
    // the bucket keyed by its own room id
    for key in &output.all_keys {
        let mut holders = 0;
        for (room, bucket) in &output.keys_by_room {
            let present = bucket.iter().any(|k| k.session_id == key.session_id);
            if present {
                holders += 1;
                assert_eq!(room, &key.room_id);
            }
        }
        assert_eq!(holders, 1);
    }

    // the bucket sizes add up to the total
    let counted: usize = output.keys_by_room.iter().map(|(_, b)| b.len()).sum();
    assert_eq!(counted, output.total_keys);
}

#[test]
fn test_build_failed_output() {
    let failures = vec![
        FailedSession {
            index: 0,
            key_hex: "00".to_owned(),
            error: "Deserialization failed: bad".to_owned(),
        },
        FailedSession {
            index: 3,
            key_hex: "ff".to_owned(),
            error: "Sled read error: io".to_owned(),
        },
    ];
    let doc = build_failed_output(failures);
    assert_eq!(doc.total_failed, 2);
    assert_eq!(doc.sessions.len(), 2);
    assert_eq!(doc.sessions[0].index, 0);
    assert_eq!(doc.sessions[1].index, 3);
    assert_eq!(doc.sessions[1].key_hex, "ff");
}
