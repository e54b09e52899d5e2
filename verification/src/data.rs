//! The data model: portable key records, failure records and the two
//! output documents, together with their ghost images.

use vstd::prelude::*;

verus! {

/// Portable record of one group session's key material, suitable for
/// backup or migration.  All key fields are base64 encoded strings.
pub struct ExportedKeyData {
    /// Room the key belongs to.
    pub room_id: String,
    /// Session id of this key.
    pub session_id: String,
    /// Encryption algorithm, usually m.megolm.v1.aes-sha2.
    pub algorithm: String,
    /// The exported session key itself.
    pub session_key: String,
    /// Curve25519 key of the sender.
    pub sender_key: String,
    /// Keys the sender claimed, one pair per key type; key types are unique.
    pub sender_claimed_keys: Vec<(String, String)>,
    /// Ordered chain of Curve25519 keys the session was forwarded through.
    pub forwarding_curve25519_key_chain: Vec<String>,
}

/// Ghost image of an `ExportedKeyData`: every field as a sequence value.
#[verifier::ext_equal]
pub struct KeyRecordView {
    pub room_id: Seq<char>,
    pub session_id: Seq<char>,
    pub algorithm: Seq<char>,
    pub session_key: Seq<char>,
    pub sender_key: Seq<char>,
    pub sender_claimed_keys: Seq<(Seq<char>, Seq<char>)>,
    pub forwarding_curve25519_key_chain: Seq<Seq<char>>,
}

impl View for ExportedKeyData {
    type V = KeyRecordView;

    open spec fn view(&self) -> KeyRecordView {
        KeyRecordView {
            room_id: self.room_id@,
            session_id: self.session_id@,
            algorithm: self.algorithm@,
            session_key: self.session_key@,
            sender_key: self.sender_key@,
            sender_claimed_keys: self.sender_claimed_keys@.map_values(
                |p: (String, String)| (p.0@, p.1@),
            ),
            forwarding_curve25519_key_chain: self.forwarding_curve25519_key_chain@.map_values(
                |s: String| s@,
            ),
        }
    }
}

/// Copies a vector of strings, element for element.
fn clone_strings(v: &Vec<String>) -> (res: Vec<String>)
    ensures
        res@ == v@,
{
    let mut out: Vec<String> = Vec::new();
    let mut i: usize = 0;
    while i < v.len()
        invariant
            i <= v.len(),
            out@ == v@.subrange(0, i as int),
        decreases v.len() - i,
    {
        out.push(v[i].clone());
        proof {
            assert(v@.subrange(0, i + 1) =~= v@.subrange(0, i as int).push(v@[i as int]));
        }
        i = i + 1;
    }
    proof {
        assert(v@.subrange(0, v@.len() as int) =~= v@);
    }
    out
}

/// Copies a vector of string pairs, element for element.
fn clone_string_pairs(v: &Vec<(String, String)>) -> (res: Vec<(String, String)>)
    ensures
        res@ == v@,
{
    let mut out: Vec<(String, String)> = Vec::new();
    let mut i: usize = 0;
    while i < v.len()
        invariant
            i <= v.len(),
            out@ == v@.subrange(0, i as int),
        decreases v.len() - i,
    {
        let pair = (v[i].0.clone(), v[i].1.clone());
        out.push(pair);
        proof {
            assert(v@.subrange(0, i + 1) =~= v@.subrange(0, i as int).push(v@[i as int]));
        }
        i = i + 1;
    }
    proof {
        assert(v@.subrange(0, v@.len() as int) =~= v@);
    }
    out
}

impl Clone for ExportedKeyData {
    /// The copy carries the very same field values.
    fn clone(&self) -> (res: Self)
        ensures
            res@ == self@,
    {
        let res = ExportedKeyData {
            room_id: self.room_id.clone(),
            session_id: self.session_id.clone(),
            algorithm: self.algorithm.clone(),
            session_key: self.session_key.clone(),
            sender_key: self.sender_key.clone(),
            sender_claimed_keys: clone_string_pairs(&self.sender_claimed_keys),
            forwarding_curve25519_key_chain: clone_strings(
                &self.forwarding_curve25519_key_chain,
            ),
        };
        proof {
            assert(res@ =~= self@);
        }
        res
    }
}

/// Record of one entry of the session collection that could not be turned
/// into a key: its ordinal position in the walk, the hex encoding of its
/// raw key (or a sentinel when the raw read itself failed) and the cause.
pub struct FailedSession {
    pub index: usize,
    pub key_hex: String,
    pub error: String,
}

/// What one extraction run accumulated: the key records in encounter
/// order, the failure records in encounter order, and how many entries
/// of the collection were examined in all.  The ghost walk records the
/// outcome of every examined entry at its ordinal, attributing each
/// key and each failure to the walk position it came from.
pub struct ExtractionOutcome {
    pub keys: Vec<ExportedKeyData>,
    pub failures: Vec<FailedSession>,
    pub entries_examined: usize,
    pub walk: Ghost<Seq<Result<ExportedKeyData, FailedSession>>>,
}

/// The output document: all recovered keys, flat and grouped by room.
pub struct ExtractionOutput {
    /// Version of this export format.
    pub version: u32,
    /// Number of keys recovered.
    pub total_keys: usize,
    /// Number of entries that failed.
    pub failed_keys: usize,
    /// The keys grouped by room; one bucket per room, rooms unique,
    /// keys inside a bucket in first-seen order.
    pub keys_by_room: Vec<(String, Vec<ExportedKeyData>)>,
    /// Every recovered key, in encounter order.
    pub all_keys: Vec<ExportedKeyData>,
}

/// The failure document: every failure record of one run, in encounter order.
pub struct FailedSessionsOutput {
    pub total_failed: usize,
    pub sessions: Vec<FailedSession>,
}

/// A fatal setup failure: the run aborts and no output is produced.
#[derive(Debug)]
pub enum ExtractError {
    /// The store could not be opened at all.
    StoreOpen(String),
    /// A store cipher blob is present but could not be imported with the
    /// given passphrase (typically: wrong passphrase).
    CipherImport(String),
    /// The session collection could not be opened.
    CollectionOpen(String),
}

impl ExtractError {
    /// The cause carried by the error.
    pub fn cause(&self) -> (res: &String)
        ensures
            self is StoreOpen ==> res == self->StoreOpen_0,
            self is CipherImport ==> res == self->CipherImport_0,
            self is CollectionOpen ==> res == self->CollectionOpen_0,
    {
        match self {
            ExtractError::StoreOpen(s) => s,
            ExtractError::CipherImport(s) => s,
            ExtractError::CollectionOpen(s) => s,
        }
    }
}

} // verus!
