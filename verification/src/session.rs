//! The session reconstructor: rebuilds a live group session from a
//! decoded snapshot and exports a portable key record from it.

use vstd::prelude::*;

use matrix_sdk_crypto::olm::{ExportedRoomKey, InboundGroupSession, PickledInboundGroupSession};

use crate::data::ExportedKeyData;

verus! {

#[verifier::external_type_specification]
#[verifier::external_body]
pub struct ExInboundGroupSession(InboundGroupSession);

#[verifier::external_type_specification]
#[verifier::external_body]
pub struct ExExportedRoomKey(ExportedRoomKey);

/// Relies on InboundGroupSession::from_pickle of matrix-sdk-crypto:
/// rebuilds a live session from its snapshot.  In this version the call
/// cannot fail: the snapshot's parts are moved into the live session
/// and the inner ratchet conversion is infallible, so a decoded
/// snapshot always yields a session.
#[verifier::external_body]
fn session_from_pickle(pickle: PickledInboundGroupSession) -> (res: Result<
    InboundGroupSession,
    String,
>)
    ensures
        res is Ok,
{
    InboundGroupSession::from_pickle(pickle).map_err(|e| e.to_string())
}

/// Relies on InboundGroupSession::export of matrix-sdk-crypto: exports
/// the key material at the session's first known message index, which
/// always succeeds for a live session.  The future only awaits an
/// uncontended lock, so it is driven to completion on the spot.
#[verifier::external_body]
fn session_export(session: &InboundGroupSession) -> (res: ExportedRoomKey) {
    futures_executor::block_on(session.export())
}

/// Relies on the accessors of ExportedRoomKey of matrix-sdk-crypto: the
/// room id and algorithm in their canonical string form, every key in
/// its base64 form, the claimed keys pair by pair and the forwarding
/// chain in order.
#[verifier::external_body]
fn convert_exported_key(key: &ExportedRoomKey) -> (res: ExportedKeyData) {
    ExportedKeyData {
        room_id: key.room_id.to_string(),
        session_id: key.session_id.clone(),
        algorithm: key.algorithm.to_string(),
        session_key: key.session_key.to_base64(),
        sender_key: key.sender_key.to_base64(),
        sender_claimed_keys: key
            .sender_claimed_keys
            .iter()
            .map(|(k, v)| (k.to_string(), v.to_base64()))
            .collect(),
        forwarding_curve25519_key_chain: key
            .forwarding_curve25519_key_chain.iter().map(|k| k.to_base64()).collect(),
    }
}

/// Exports the portable key record of one live session.  Export itself
/// has no fallible step.
pub fn export_session_key(session: &InboundGroupSession) -> ExportedKeyData {
    let key = session_export(session);
    convert_exported_key(&key)
}

/// Rebuilds a live session from a decoded snapshot and exports its key
/// record.  This is where the internal consistency of the cryptographic
/// state would be checked, and a failure here is recoverable for the
/// batch; with the session library in use, rebuilding a decoded
/// snapshot always succeeds, so a snapshot always yields a record.
pub fn reconstruct_and_export(pickle: PickledInboundGroupSession) -> (res: Result<
    ExportedKeyData,
    String,
>)
    ensures
        res is Ok,
{
    match session_from_pickle(pickle) {
        Ok(session) => Ok(export_session_key(&session)),
        Err(e) => Err(e),
    }
}

/// Exports every session of an already validated batch, in order: the
/// strict path, where any earlier failure has aborted the run.
pub fn export_sessions(sessions: &Vec<InboundGroupSession>) -> (res: Vec<ExportedKeyData>)
    ensures
        res@.len() == sessions@.len(),
{
    let mut out: Vec<ExportedKeyData> = Vec::new();
    let mut i: usize = 0;
    while i < sessions.len()
        invariant
            i <= sessions.len(),
            out@.len() == i,
        decreases sessions.len() - i,
    {
        out.push(export_session_key(&sessions[i]));
        i = i + 1;
    }
    out
}

} // verus!
