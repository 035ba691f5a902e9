//! Certificate stores: opening by name, searching by thumbprint, adding
//! encoded certificates.
//!
//! The store functions (`CertOpenSystemStoreA`,
//! `CertFindCertificateInStore`, ...) are calls into the CSP, passed in as
//! closures that receive every argument this module decides; handles are
//! the addresses they return (0 for NULL).
use vstd::prelude::*;
use crate::certificate::SHA1_LEN;
use crate::ffi_helpers::string::{c_string_of, to_c_string};
use crate::raw_types::BOOL;
use crate::types::error::{CpcspError, CpcspResult};

verus! {

/// Open a system store by name (`CertOpenSystemStoreA`). `call` receives
/// the name's C string and returns the store handle. A name holding a zero
/// character gives `ERROR_INVALID_PARAMETER` (0x57) without a call; a NULL
/// handle gives the code from `last_error`.
pub fn open_system<F: FnOnce(&Vec<u8>) -> usize, E: FnOnce() -> u32>(
    name: &str,
    call: F,
    last_error: E,
) -> (r: CpcspResult<usize>)
    requires
        forall|c: &Vec<u8>| call.requires((c,)),
        last_error.requires(()),
    ensures
        name@.contains('\0') ==> (r matches Err(e) && e@ == 0x57),
        !name@.contains('\0') ==> exists|c: Vec<u8>, h: usize|
            #[trigger] call.ensures((&c,), h) && c@ == c_string_of(name@) && (if h == 0 {
                r matches Err(e) && last_error.ensures((), e@)
            } else {
                r == Ok::<usize, CpcspError>(h)
            }),
{
    let c = match to_c_string(name) {
        Ok(c) => c,
        Err(e) => return Err(e),
    };
    let h = call(&c);
    assert(call.ensures((&c,), h));
    if h == 0 {
        let code = last_error();
        return Err(CpcspError::from_raw(code));
    }
    Ok(h)
}

/// Find a certificate by its SHA-1 thumbprint
/// (`CertFindCertificateInStore` with `CERT_FIND_SHA1_HASH`). A hash that
/// is not 20 bytes long finds nothing without a call; otherwise `find`
/// receives it and returns the certificate context (NULL for none).
pub fn find_by_sha1<F: FnOnce(&[u8]) -> usize>(sha1_hash: &[u8], find: F) -> (r: Option<usize>)
    requires
        find.requires((sha1_hash,)),
    ensures
        sha1_hash@.len() != SHA1_LEN ==> r is None,
        sha1_hash@.len() == SHA1_LEN ==> exists|ctx: usize|
            #[trigger] find.ensures((sha1_hash,), ctx) && r == (if ctx == 0 {
                None
            } else {
                Some(ctx)
            }),
{
    if sha1_hash.len() != SHA1_LEN {
        return None;
    }
    let ctx = find(sha1_hash);
    assert(find.ensures((sha1_hash,), ctx));
    if ctx == 0 {
        None
    } else {
        Some(ctx)
    }
}

/// Add an encoded certificate to a system store by name
/// (`CertAddEncodedCertificateToSystemStoreA`). `call` receives the
/// name's C string and the certificate. A name holding a zero character
/// gives `ERROR_INVALID_PARAMETER` (0x57) without a call; a failed call
/// gives the code from `last_error`.
pub fn add_to_system_store<F: FnOnce(&Vec<u8>, &[u8]) -> BOOL, E: FnOnce() -> u32>(
    store_name: &str,
    cert_der: &[u8],
    call: F,
    last_error: E,
) -> (r: CpcspResult<()>)
    requires
        forall|c: &Vec<u8>| call.requires((c, cert_der)),
        last_error.requires(()),
    ensures
        store_name@.contains('\0') ==> (r matches Err(e) && e@ == 0x57),
        !store_name@.contains('\0') ==> exists|c: Vec<u8>, b: BOOL|
            #[trigger] call.ensures((&c, cert_der), b) && c@ == c_string_of(store_name@) && (if b
                == 0 {
                r matches Err(e) && last_error.ensures((), e@)
            } else {
                r is Ok
            }),
{
    let c = match to_c_string(store_name) {
        Ok(c) => c,
        Err(e) => return Err(e),
    };
    let b = call(&c, cert_der);
    assert(call.ensures((&c, cert_der), b));
    if b == 0 {
        let code = last_error();
        return Err(CpcspError::from_raw(code));
    }
    Ok(())
}

} // verus!
