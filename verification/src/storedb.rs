//! The embedded store, seen through a narrow trusted surface: opaque
//! handles for the database, one of its collections and a walk over it.
//! Nothing is promised of what comes back — the store lives on disk and
//! every read may fail; the callers state what holds of every outcome.

use vstd::prelude::*;

use crate::data::ExtractError;
use crate::strutil::{bytes_equal, concat_str};

verus! {

#[verifier::external_type_specification]
#[verifier::external_body]
pub struct ExDb(sled::Db);

#[verifier::external_type_specification]
#[verifier::external_body]
pub struct ExTree(sled::Tree);

#[verifier::external_type_specification]
#[verifier::external_body]
pub struct ExIter(sled::Iter);

#[verifier::external_type_specification]
#[verifier::external_body]
pub struct ExIVec(sled::IVec);

#[verifier::external_type_specification]
#[verifier::external_body]
pub struct ExSledError(sled::Error);

/// Relies on sled::open: opens the directory-based store, failing on a
/// missing or malformed directory.
#[verifier::external_body]
fn open_db(path: &str) -> (res: Result<sled::Db, String>) {
    sled::open(path).map_err(|e| e.to_string())
}

/// Relies on sled::Tree::get on the default collection: looks the key up,
/// returning its value bytes when present.
#[verifier::external_body]
pub(crate) fn store_get(db: &sled::Db, key: &[u8]) -> (res: Result<Option<Vec<u8>>, String>) {
    db.get(key).map(|v| v.map(|ivec| ivec.to_vec())).map_err(|e| e.to_string())
}

/// Relies on sled::Db::open_tree: opens the collection of that name.
/// A missing collection is created empty, so a caller that wants
/// presence must check the store's collection names first.
#[verifier::external_body]
fn open_collection(db: &sled::Db, name: &str) -> (res: Result<sled::Tree, String>) {
    db.open_tree(name).map_err(|e| e.to_string())
}

/// Relies on sled::Db::tree_names: the names of every collection the
/// store holds, as plain byte strings.
#[verifier::external_body]
fn collection_names(db: &sled::Db) -> (res: Vec<Vec<u8>>) {
    db.tree_names().into_iter().map(|name| name.to_vec()).collect()
}

/// Opens the named collection only if the store already holds one of
/// that name.  A store without it does not match the expected schema:
/// that is fatal, not a recoverable per-entry condition.
pub fn open_existing_collection(db: &sled::Db, name: &str) -> (res: Result<
    sled::Tree,
    ExtractError,
>)
    ensures
        res is Err ==> res->Err_0 is CollectionOpen,
{
    let names = collection_names(db);
    let mut found: bool = false;
    let mut i: usize = 0;
    while i < names.len()
        invariant
            i <= names.len(),
        decreases names.len() - i,
    {
        if bytes_equal(names[i].as_slice(), name.as_bytes()) {
            found = true;
        }
        i = i + 1;
    }
    if !found {
        return Err(ExtractError::CollectionOpen(concat_str("collection not found: ", name)));
    }
    match open_collection(db, name) {
        Ok(tree) => Ok(tree),
        Err(e) => Err(ExtractError::CollectionOpen(e)),
    }
}

/// Relies on sled::Tree::iter: a walk over the collection's entries from
/// its start.
#[verifier::external_body]
pub(crate) fn collection_iter(tree: &sled::Tree) -> (res: sled::Iter) {
    tree.iter()
}

/// Relies on sled::Iter::next: the next entry of the walk, or its read
/// error, or nothing once the walk is done.
#[verifier::external_body]
pub(crate) fn iter_next(entries: &mut sled::Iter) -> (res: Option<
    Result<(Vec<u8>, Vec<u8>), String>,
>) {
    entries.next().map(|r| r.map(|(k, v)| (k.to_vec(), v.to_vec())).map_err(|e| e.to_string()))
}

/// Opens the embedded store at the given directory; a failure here is
/// fatal for the whole run.
pub fn open_store(path: &str) -> (res: Result<sled::Db, ExtractError>)
    ensures
        res is Err ==> res->Err_0 is StoreOpen,
{
    match open_db(path) {
        Ok(db) => Ok(db),
        Err(e) => Err(ExtractError::StoreOpen(e)),
    }
}

} // verus!
