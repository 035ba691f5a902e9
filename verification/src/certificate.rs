//! What is computed from a certificate context's replies.
//!
//! A certificate context (`PCCERT_CONTEXT`) is owned memory of the CSP;
//! reading its names, properties and encoding are calls into it. This
//! module holds what the library does with their output: the name text
//! and the SHA-1 thumbprint.
use vstd::prelude::*;
use vstd::utf8::{decode_utf8, valid_utf8};
use crate::ffi_helpers::buffer::{truncated, zeroed};
use crate::ffi_helpers::string::{c_string_of, to_c_string};
use crate::raw_types::DWORD;
use crate::text::string_from_utf8;
use crate::types::error::{CpcspError, CpcspResult};

verus! {

/// The length of a SHA-1 thumbprint in bytes.
pub const SHA1_LEN: usize = 20;

/// The name text that `CertNameToStrA` wrote into `buf`, given the length
/// `len` it returned (the characters and the terminating zero): zero means
/// failure and gives `None`; otherwise the buffer is cut before the
/// terminating zero and must be UTF-8.
pub fn name_from_output(buf: Vec<u8>, len: u32) -> (r: Option<String>)
    ensures
        len == 0 ==> r is None,
        len != 0 ==> (r is Some <==> valid_utf8(truncated(buf@, len - 1))),
        len != 0 ==> (r matches Some(s) ==> s@ == decode_utf8(truncated(buf@, len - 1))),
{
    if len == 0 {
        return None;
    }
    let ghost b = buf@;
    let mut text = buf;
    text.truncate((len - 1) as usize);
    assert(text@ =~= truncated(b, len - 1));
    string_from_utf8(text)
}

/// The size of the buffer a certificate name is written into.
pub const NAME_BUFFER_LEN: u32 = 256;

/// A simple name (subject or issuer) of a certificate. A certificate
/// without its `CERT_INFO` (`cert_info` NULL) has none, without a call;
/// otherwise `call` receives the `CERT_INFO` and a zeroed buffer of
/// `NAME_BUFFER_LEN` bytes, runs `CertNameToStrA` into it and returns the
/// length it reported with the buffer, which `name_from_output` reads.
pub fn simple_name<F: FnOnce(usize, Vec<u8>, u32) -> (u32, Vec<u8>)>(cert_info: usize, call: F) -> (r:
    Option<String>)
    requires
        forall|b: Vec<u8>| call.requires((cert_info, b, NAME_BUFFER_LEN)),
        forall|b: Vec<u8>, len: u32, out: Vec<u8>| #[trigger] call.ensures((cert_info, b, NAME_BUFFER_LEN), (len, out)) ==> out@.len() == b@.len(),
    ensures
        cert_info == 0 ==> r is None,
        cert_info != 0 ==> exists|b0: Vec<u8>, len: u32, out: Vec<u8>|
            #[trigger] call.ensures((cert_info, b0, NAME_BUFFER_LEN), (len, out)) && b0@
                == zeroed(NAME_BUFFER_LEN as nat) && (if len == 0 {
                r is None
            } else {
                (r is Some <==> valid_utf8(truncated(out@, len - 1))) && (r matches Some(s) ==> s@
                    == decode_utf8(truncated(out@, len - 1)))
            }),
{
    if cert_info == 0 {
        return None;
    }
    let buf: Vec<u8> = vec![0u8; NAME_BUFFER_LEN as usize];
    assert(buf@ =~= zeroed(NAME_BUFFER_LEN as nat));
    let ghost b0 = buf;
    let out = call(cert_info, buf, NAME_BUFFER_LEN);
    let (len, filled) = out;
    assert(call.ensures((cert_info, b0, NAME_BUFFER_LEN), (len, filled)));
    name_from_output(filled, len)
}

/// The SHA-1 thumbprint from the bytes of `CERT_SHA1_HASH_PROP_ID`: the
/// property must be exactly 20 bytes long.
pub fn sha1_from_property(data: &[u8]) -> (r: Option<[u8; 20]>)
    ensures
        r is Some <==> data@.len() == SHA1_LEN,
        r matches Some(h) ==> h@ == data@,
{
    if data.len() != SHA1_LEN {
        return None;
    }
    let mut hash = [0u8; 20];
    let mut i: usize = 0;
    while i < SHA1_LEN
        invariant
            data@.len() == SHA1_LEN,
            i <= SHA1_LEN,
            forall|j: int| 0 <= j < i ==> hash@[j] == data@[j],
        decreases SHA1_LEN - i,
    {
        hash[i] = data[i];
        i = i + 1;
    }
    assert(hash@ =~= data@);
    Some(hash)
}

/// The validity result reported for a `CertVerifyTimeValidity` value
/// `v` (-1 before the validity period, 1 after it): 0 for a valid
/// certificate, negative for an expired one, positive for one not yet
/// valid, that is `v` negated (saturating at `i32::MAX`).
pub open spec fn time_validity(v: i32) -> i32 {
    if v == i32::MIN {
        i32::MAX
    } else {
        (-v) as i32
    }
}

/// Check a certificate's validity time (`CertVerifyTimeValidity` with
/// the current time). A certificate without its `CERT_INFO` (`cert_info`
/// NULL) gives `ERROR_INVALID_PARAMETER` (0x57) without a call;
/// otherwise `call` receives the `CERT_INFO` and the result is 0 when the
/// certificate is valid, negative when it has expired and positive when
/// it is not yet valid (`time_validity` of the call's value).
pub fn verify_time<F: FnOnce(usize) -> i32>(cert_info: usize, call: F) -> (r: CpcspResult<i32>)
    requires
        call.requires((cert_info,)),
    ensures
        cert_info == 0 ==> (r matches Err(e) && e@ == 0x57),
        cert_info != 0 ==> exists|v: i32|
            #[trigger] call.ensures((cert_info,), v) && r == Ok::<i32, CpcspError>(
                time_validity(v),
            ),
{
    if cert_info == 0 {
        return Err(CpcspError::from_raw(0x57));
    }
    let v = call(cert_info);
    assert(call.ensures((cert_info,), v));
    if v == i32::MIN {
        Ok(i32::MAX)
    } else {
        Ok(-v)
    }
}

/// Find an extension of a certificate by OID (`CertFindExtension`). An
/// OID holding a zero character, a missing `CERT_INFO`, or a certificate
/// without extensions (NULL array or count 0) finds nothing without a
/// call; otherwise `find` receives the OID's C string, the count and the
/// array, and returns the extension (NULL for none).
pub fn find_extension<F: FnOnce(&Vec<u8>, DWORD, usize) -> usize>(
    oid: &str,
    cert_info: usize,
    ext_count: DWORD,
    extensions: usize,
    find: F,
) -> (r: Option<usize>)
    requires
        forall|c: &Vec<u8>| find.requires((c, ext_count, extensions)),
    ensures
        oid@.contains('\0') || cert_info == 0 || extensions == 0 || ext_count == 0 ==> r is None,
        !(oid@.contains('\0') || cert_info == 0 || extensions == 0 || ext_count == 0) ==> exists|
            c: Vec<u8>,
            ext: usize,
        |
            #[trigger] find.ensures((&c, ext_count, extensions), ext) && c@ == c_string_of(oid@)
                && r == (if ext == 0 {
                None
            } else {
                Some(ext)
            }),
{
    let c = match to_c_string(oid) {
        Ok(c) => c,
        Err(_) => return None,
    };
    if cert_info == 0 || extensions == 0 || ext_count == 0 {
        return None;
    }
    let ext = find(&c, ext_count, extensions);
    assert(find.ensures((&c, ext_count, extensions), ext));
    if ext == 0 {
        None
    } else {
        Some(ext)
    }
}

} // verus!
