//! The extraction orchestrator: walks the session collection entry by
//! entry, turning each into a key record or a failure record, so that a
//! single corrupt entry never aborts the batch.

use std::io::Write;

use vstd::prelude::*;

use matrix_sdk_store_encryption::StoreCipher;

use crate::cipher::load_store_cipher;
use crate::codec::{deserialize_value, pickle_decodes};
use crate::data::{ExportedKeyData, ExtractError, ExtractionOutcome, FailedSession};
use crate::session::reconstruct_and_export;
use crate::storedb::{collection_iter, iter_next, open_existing_collection};
use crate::strutil::{concat_str, hex_of, hex_encode};

verus! {

/// Name of the collection holding the pickled inbound group sessions.
pub const INBOUND_GROUP_TABLE_NAME: &'static str = "crypto-store-inbound-group-sessions";

/// How often the walk emits its observational progress signal, counted
/// in successfully exported sessions.
pub const PROGRESS_INTERVAL: usize = 1000;

/// The key records among the walk's outcomes, in walk order.
pub open spec fn successes_of(walk: Seq<Result<ExportedKeyData, FailedSession>>) -> Seq<
    ExportedKeyData,
>
    decreases walk.len(),
{
    if walk.len() == 0 {
        Seq::<ExportedKeyData>::empty()
    } else {
        let prior = successes_of(walk.drop_last());
        if walk.last() is Ok {
            prior.push(walk.last()->Ok_0)
        } else {
            prior
        }
    }
}

/// The failure records among the walk's outcomes, in walk order.
pub open spec fn failures_of(walk: Seq<Result<ExportedKeyData, FailedSession>>) -> Seq<
    FailedSession,
>
    decreases walk.len(),
{
    if walk.len() == 0 {
        Seq::<FailedSession>::empty()
    } else {
        let prior = failures_of(walk.drop_last());
        if walk.last() is Err {
            prior.push(walk.last()->Err_0)
        } else {
            prior
        }
    }
}

/// One more outcome extends exactly one of the two projections.
proof fn lemma_walk_push(
    walk: Seq<Result<ExportedKeyData, FailedSession>>,
    step: Result<ExportedKeyData, FailedSession>,
)
    ensures
        successes_of(walk.push(step)) == if step is Ok {
            successes_of(walk).push(step->Ok_0)
        } else {
            successes_of(walk)
        },
        failures_of(walk.push(step)) == if step is Err {
            failures_of(walk).push(step->Err_0)
        } else {
            failures_of(walk)
        },
{
    assert(walk.push(step).drop_last() =~= walk);
    assert(walk.push(step).last() == step);
}

/// Relies on std::io::Write for the standard error stream: one
/// observational progress line.  The write's result is discarded, so
/// the outcome of the walk never depends on it.
#[verifier::external_body]
fn emit_progress(count: usize) {
    let _ = writeln!(std::io::stderr(), "Progress: {count} sessions exported...");
}

/// Turns one raw entry of the walk — or its read error — into a key
/// record or a failure record carrying the entry's ordinal position.
///
/// A read error is recorded under a sentinel in place of the key's hex
/// with the read error's exact message; any failure of an entry that
/// was read carries the hex encoding of its raw key and a message
/// naming the decoding step.  Without a cipher, an entry is a key
/// record exactly when its bytes parse as a snapshot: rebuilding a
/// decoded snapshot cannot fail.
pub fn process_entry(
    index: usize,
    entry: Result<(Vec<u8>, Vec<u8>), String>,
    store_cipher: Option<&StoreCipher>,
) -> (res: Result<ExportedKeyData, FailedSession>)
    ensures
        res is Err ==> res->Err_0.index == index,
        entry is Err ==> res is Err && res->Err_0.key_hex@ == "<read error>"@
            && res->Err_0.error@ == "Sled read error: "@ + entry->Err_0@,
        entry is Ok && res is Err ==> res->Err_0.key_hex@ == hex_of(entry->Ok_0.0@)
            && res->Err_0.error@.subrange(0, "Deserialization failed: "@.len() as int)
                == "Deserialization failed: "@,
        entry is Ok && store_cipher is None ==> (res is Ok <==> pickle_decodes(
            entry->Ok_0.1@,
        )),
{
    match entry {
        Err(cause) => Err(FailedSession {
            index,
            key_hex: "<read error>".to_owned(),
            error: concat_str("Sled read error: ", cause.as_str()),
        }),
        Ok((key, value)) => {
            let key_hex = hex_encode(key.as_slice());
            match deserialize_value(value.as_slice(), store_cipher) {
                Err(cause) => {
                    let message = concat_str("Deserialization failed: ", cause.as_str());
                    proof {
                        assert(message@.subrange(
                            0,
                            "Deserialization failed: "@.len() as int,
                        ) =~= "Deserialization failed: "@);
                    }
                    Err(FailedSession { index, key_hex, error: message })
                },
                Ok(pickle) => match reconstruct_and_export(pickle) {
                    Ok(record) => Ok(record),
                    Err(cause) => Err(FailedSession {
                        index,
                        key_hex,
                        error: concat_str("Pickle reconstruction failed: ", cause.as_str()),
                    }),
                },
            }
        },
    }
}

/// Walks the session collection of the store and extracts every key it
/// can, recording one failure per entry that could not be turned into a
/// key and continuing with the next.
///
/// Every entry examined becomes exactly one outcome of the ghost walk,
/// whose key records make up `keys` and whose failure records make up
/// `failures`, each failure at its own ordinal.  A missing cipher blob
/// means an unencrypted store; a blob that cannot be imported with the
/// passphrase aborts the run before any entry is walked, as does a
/// store that lacks the session collection.  An absent passphrase is
/// taken as the empty one.  Every thousandth exported session emits an
/// observational progress signal that never alters the outcome.
pub fn extract_keys_fault_tolerant(db: &sled::Db, passphrase: Option<&str>) -> (res: Result<
    ExtractionOutcome,
    ExtractError,
>)
    ensures
        res is Ok ==> res->Ok_0.walk@.len() == res->Ok_0.entries_examined,
        res is Ok ==> res->Ok_0.keys@ == successes_of(res->Ok_0.walk@),
        res is Ok ==> res->Ok_0.failures@ == failures_of(res->Ok_0.walk@),
        res is Ok ==> forall|i: int|
            0 <= i < res->Ok_0.walk@.len() && (#[trigger] res->Ok_0.walk@[i]) is Err
                ==> res->Ok_0.walk@[i]->Err_0.index == i,
        res is Ok ==> res->Ok_0.keys@.len() + res->Ok_0.failures@.len()
            == res->Ok_0.entries_examined,
        res is Ok ==> forall|i: int|
            0 <= i < res->Ok_0.failures@.len()
                ==> (#[trigger] res->Ok_0.failures@[i]).index < res->Ok_0.entries_examined,
        res is Ok ==> forall|i: int, j: int|
            0 <= i < j < res->Ok_0.failures@.len()
                ==> res->Ok_0.failures@[i].index < res->Ok_0.failures@[j].index,
        res is Err ==> res->Err_0 is CipherImport || res->Err_0 is StoreOpen
            || res->Err_0 is CollectionOpen,
{
    let effective_passphrase = match passphrase {
        Some(p) => p,
        None => "",
    };
    let store_cipher = match load_store_cipher(db, effective_passphrase) {
        Ok(c) => c,
        Err(e) => {
            return Err(e);
        },
    };
    let sessions_tree = match open_existing_collection(db, INBOUND_GROUP_TABLE_NAME) {
        Ok(t) => t,
        Err(e) => {
            return Err(e);
        },
    };
    let mut entries = collection_iter(&sessions_tree);
    let mut keys: Vec<ExportedKeyData> = Vec::new();
    let mut failures: Vec<FailedSession> = Vec::new();
    let mut index: usize = 0;
    let ghost mut walk: Seq<Result<ExportedKeyData, FailedSession>> = Seq::empty();
    loop
        invariant
            walk.len() == index,
            keys@ == successes_of(walk),
            failures@ == failures_of(walk),
            forall|t: int|
                0 <= t < walk.len() && (#[trigger] walk[t]) is Err
                    ==> walk[t]->Err_0.index == t,
            keys@.len() + failures@.len() == index,
            forall|i: int|
                0 <= i < failures@.len() ==> (#[trigger] failures@[i]).index < index,
            forall|i: int, j: int|
                0 <= i < j < failures@.len() ==> failures@[i].index < failures@[j].index,
        decreases usize::MAX - index,
    {
        match iter_next(&mut entries) {
            None => {
                break;
            },
            Some(entry) => {
                if index == usize::MAX {
                    break;
                }
                let step = process_entry(index, entry, store_cipher.as_ref());
                proof {
                    lemma_walk_push(walk, step);
                    walk = walk.push(step);
                }
                match step {
                    Ok(record) => {
                        keys.push(record);
                        if keys.len() % PROGRESS_INTERVAL == 0 {
                            emit_progress(keys.len());
                        }
                    },
                    Err(failure) => failures.push(failure),
                }
                index = index + 1;
            },
        }
    }
    Ok(ExtractionOutcome { keys, failures, entries_examined: index, walk: Ghost(walk) })
}

} // verus!
