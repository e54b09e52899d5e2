//! The envelope reader: turns the raw bytes of one entry into a decoded
//! session snapshot, transparently decrypting when the store carries a
//! cipher and parsing them directly when it does not.

use vstd::prelude::*;

use matrix_sdk_crypto::olm::PickledInboundGroupSession;
use matrix_sdk_store_encryption::StoreCipher;

verus! {

#[verifier::external_type_specification]
#[verifier::external_body]
pub struct ExPickledInboundGroupSession(PickledInboundGroupSession);

/// Whether a byte sequence parses as a plain session snapshot.  Parsing
/// depends on the bytes alone.
pub uninterp spec fn pickle_decodes(data: Seq<u8>) -> bool;

/// Relies on serde_json::from_slice for PickledInboundGroupSession:
/// parses the bytes as a plain snapshot, failing on malformed input.
#[verifier::external_body]
fn decode_pickle(data: &[u8]) -> (res: Result<PickledInboundGroupSession, String>)
    ensures
        res is Ok <==> pickle_decodes(data@),
{
    serde_json::from_slice(data).map_err(|e| e.to_string())
}

/// Relies on StoreCipher::decrypt_value of matrix-sdk-store-encryption:
/// treats the bytes as an authenticated-encrypted envelope, decrypts
/// them and parses the plaintext as a snapshot, failing on any
/// authentication or format failure.
#[verifier::external_body]
fn decrypt_pickle(cipher: &StoreCipher, data: &[u8]) -> (res: Result<
    PickledInboundGroupSession,
    String,
>) {
    cipher.decrypt_value(data).map_err(|e| e.to_string())
}

/// Decodes one raw value into a session snapshot.  With a cipher the
/// bytes are decrypted first; without one they are parsed directly as
/// plain structured data — no decryption is ever attempted, so the
/// result is exactly that of the direct parse.
pub fn deserialize_value(data: &[u8], store_cipher: Option<&StoreCipher>) -> (res: Result<
    PickledInboundGroupSession,
    String,
>)
    ensures
        store_cipher is None ==> (res is Ok <==> pickle_decodes(data@)),
{
    match store_cipher {
        Some(cipher) => decrypt_pickle(cipher, data),
        None => decode_pickle(data),
    }
}

} // verus!
