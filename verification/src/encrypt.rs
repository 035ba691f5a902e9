//! Encrypting and decrypting CMS messages (`CryptEncryptMessage`,
//! `CryptDecryptMessage`, `CryptSignAndEncryptMessage`).
//!
//! The calls are passed in as closures that receive every argument this
//! module decides; the recipients' certificates are the caller's.
use vstd::prelude::*;
use crate::ffi_helpers::buffer::{
    buffer_reply, call_with_buffer, call_with_sized_buffer, keeps_length, sized_buffer_reply,
};
use crate::ffi_helpers::string::c_string_of;
use crate::msg::require_participants;
use crate::sign::{signed_reply, some_oid_has_nul, Signer, SignerParams};
use crate::raw_types::{BOOL, DWORD};
use crate::types::error::CpcspResult;

verus! {

/// Encrypt `data` for `recipient_count` recipients
/// (`CryptEncryptMessage`), in the two calls of `call_with_buffer` (size
/// query from 0). No recipient gives `ERROR_INVALID_PARAMETER` (0x57)
/// without a call.
pub fn encrypt_message<F, G, E>(recipient_count: usize, get_size: F, fill: G, last_error: E) -> (r:
    CpcspResult<Vec<u8>>) where
    F: FnOnce(u32) -> (u32, u32),
    G: FnOnce(Vec<u8>, u32) -> (u32, Vec<u8>, u32),
    E: FnOnce() -> u32,

    requires
        get_size.requires((0u32,)),
        forall|b: Vec<u8>, s: u32| fill.requires((b, s)),
        keeps_length(fill),
        last_error.requires(()),
    ensures
        recipient_count == 0 ==> (r matches Err(e) && e@ == 0x57),
        recipient_count != 0 ==> buffer_reply(get_size, fill, last_error, 0u32, r),
{
    match require_participants(recipient_count) {
        Ok(()) => {},
        Err(e) => return Err(e),
    }
    call_with_buffer(0, get_size, fill, last_error)
}

/// Decrypt an enveloped message (`CryptDecryptMessage`) in the two calls
/// of `call_with_sized_buffer`: the second call is made even for empty
/// content.
pub fn decrypt_message<F, G, E>(get_size: F, fill: G, last_error: E) -> (r: CpcspResult<Vec<u8>>) where
    F: FnOnce(u32) -> (u32, u32),
    G: FnOnce(Vec<u8>, u32) -> (u32, Vec<u8>, u32),
    E: FnOnce() -> u32,

    requires
        get_size.requires((0u32,)),
        forall|b: Vec<u8>, s: u32| fill.requires((b, s)),
        keeps_length(fill),
        last_error.requires(()),
    ensures
        sized_buffer_reply(get_size, fill, last_error, r),
{
    call_with_sized_buffer(get_size, fill, last_error)
}

/// Sign `data` with the signer's certificate, key type and hash OID and
/// encrypt it for `recipient_count` recipients
/// (`CryptSignAndEncryptMessage`). `query(signer, flag, 0)` asks for the
/// size and `fill(signer, flag, buffer, size)` writes the message; the
/// signer list holds the one signer, and the flag is always 0. No
/// recipient, or a hash OID holding a zero character, gives
/// `ERROR_INVALID_PARAMETER` (0x57) without a call.
pub fn encrypt_and_sign_message<Q, G, E>(
    signer_cert: usize,
    signer_key_spec: DWORD,
    hash_oid: &str,
    recipient_count: usize,
    query: Q,
    fill: G,
    last_error: E,
) -> (r: CpcspResult<Vec<u8>>) where
    Q: FnOnce(&Vec<SignerParams>, BOOL, u32) -> (BOOL, u32),
    G: FnOnce(&Vec<SignerParams>, BOOL, Vec<u8>, u32) -> (BOOL, Vec<u8>, u32),
    E: FnOnce() -> u32,

    requires
        forall|ps: &Vec<SignerParams>| query.requires((ps, 0i32, 0u32)),
        forall|ps: &Vec<SignerParams>, b: Vec<u8>, s: u32| fill.requires((ps, 0i32, b, s)),
        forall|ps: &Vec<SignerParams>, b: Vec<u8>, s: u32, r2: BOOL, b2: Vec<u8>, s2: u32|
            #[trigger] fill.ensures((ps, 0i32, b, s), (r2, b2, s2)) ==> b2@.len() == b@.len(),
        last_error.requires(()),
    ensures
        recipient_count == 0 || hash_oid@.contains('\0') ==> (r matches Err(e) && e@ == 0x57),
        recipient_count != 0 && !hash_oid@.contains('\0') ==> exists|ps: Vec<SignerParams>|
            ps@.len() == 1 && ps@[0].cert == signer_cert && ps@[0].key_spec == signer_key_spec
                && ps@[0].hash_oid@ == c_string_of(hash_oid@) && #[trigger] signed_reply(
                query,
                fill,
                last_error,
                ps,
                0i32,
                r,
            ),
{
    match require_participants(recipient_count) {
        Ok(()) => {},
        Err(e) => return Err(e),
    }
    let signer = Signer::new(signer_cert, signer_key_spec, hash_oid);
    let signers = [signer];
    proof {
        if some_oid_has_nul(signers@) {
            let k = choose|k: int|
                0 <= k < signers@.len() && (#[trigger] signers@[k]).hash_oid@.contains('\0');
            assert(k == 0);
        }
        if hash_oid@.contains('\0') {
            assert(signers@[0].hash_oid@.contains('\0'));
        }
    }
    crate::sign::sign_message(&signers, false, query, fill, last_error)
}

} // verus!
