//! The cipher loader: derives the optional store-wide cipher from a
//! passphrase and the encrypted cipher blob kept under a well-known key
//! in the store's default collection.

use vstd::prelude::*;

use matrix_sdk_store_encryption::StoreCipher;

use crate::data::ExtractError;
use crate::storedb::store_get;

verus! {

#[verifier::external_type_specification]
#[verifier::external_body]
pub struct ExStoreCipher(StoreCipher);

/// Whether a store-cipher blob can be imported with a passphrase.  The
/// key is derived from the passphrase alone and the blob is decrypted
/// and checked with it, so this depends on the two arguments alone.
pub uninterp spec fn cipher_import_ok(passphrase: Seq<char>, blob: Seq<u8>) -> bool;

/// Relies on StoreCipher::import of matrix-sdk-store-encryption: expands
/// the passphrase with the stored KDF parameters and decrypts the blob
/// with the derived key; any authentication, format or length failure —
/// typically a wrong passphrase — is an error.
#[verifier::external_body]
fn cipher_import(passphrase: &str, blob: &[u8]) -> (res: Result<StoreCipher, String>)
    ensures
        res is Ok <==> cipher_import_ok(passphrase@, blob@),
{
    StoreCipher::import(passphrase, blob).map_err(|e| e.to_string())
}

/// Imports the store cipher from an optional blob: no blob means the
/// store is unencrypted and no cipher exists; a blob that cannot be
/// imported with the given passphrase is fatal for the whole run.
pub fn import_cipher_blob(blob: Option<&[u8]>, passphrase: &str) -> (res: Result<
    Option<StoreCipher>,
    ExtractError,
>)
    ensures
        blob is None ==> res is Ok && res->Ok_0 is None,
        blob is Some ==> (res is Ok <==> cipher_import_ok(passphrase@, blob->Some_0@)),
        blob is Some && res is Ok ==> res->Ok_0 is Some,
        res is Err ==> res->Err_0 is CipherImport,
{
    match blob {
        None => Ok(None),
        Some(bytes) => match cipher_import(passphrase, bytes) {
            Ok(cipher) => Ok(Some(cipher)),
            Err(e) => Err(ExtractError::CipherImport(e)),
        },
    }
}

/// Looks the cipher blob up under its well-known key in the store's
/// default collection and imports it; a store without that key is
/// unencrypted.  A read failure or a failed import is fatal.
pub fn load_store_cipher(db: &sled::Db, passphrase: &str) -> (res: Result<
    Option<StoreCipher>,
    ExtractError,
>)
    ensures
        res is Err ==> res->Err_0 is CipherImport || res->Err_0 is StoreOpen,
{
    match store_get(db, "store_cipher".as_bytes()) {
        Ok(Some(blob)) => import_cipher_blob(Some(blob.as_slice()), passphrase),
        Ok(None) => Ok(None),
        Err(e) => Err(ExtractError::StoreOpen(e)),
    }
}

} // verus!
