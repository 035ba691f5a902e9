//! PFX (PKCS#12) import and export.
//!
//! The PFX functions (`PFXImportCertStore`, `PFXExportCertStoreEx`, ...)
//! are calls into the CSP, passed in as closures that receive every
//! argument this module decides: the data, the password as a
//! zero-terminated UTF-16 string, the flags and the sizes. The export's
//! output buffer is allocated by the caller (`LocalAlloc`) and released
//! by it after the second call.
use vstd::prelude::*;
use crate::ffi_helpers::string::{encode_utf16, to_wide};
use crate::raw_constants::{PKCS12_ALLOW_OVERWRITE_KEY, PKCS12_NO_PERSIST_KEY};
use crate::raw_types::{BOOL, DWORD};
use crate::types::error::{CpcspError, CpcspResult};

verus! {

/// PFX operations.
pub struct Pfx;

/// The password as the PFX calls take it: zero-terminated UTF-16.
pub open spec fn wide_password(password: Seq<char>) -> Seq<u16> {
    encode_utf16(password).push(0u16)
}

/// `ERROR_NOT_ENOUGH_MEMORY`: the output buffer could not be allocated.
pub const NOT_ENOUGH_MEMORY: u32 = 0x8;

/// The flags `Pfx::import` uses: overwrite existing keys, do not persist
/// the imported keys.
pub const IMPORT_FLAGS: DWORD = PKCS12_ALLOW_OVERWRITE_KEY | PKCS12_NO_PERSIST_KEY;

/// What importing gives, where `imported(w, h)` says that the import call,
/// handed the password `w`, returned the store handle `h`: a NULL handle
/// gives the code from `last_error`, any other the handle.
pub open spec fn import_reply<E: FnOnce() -> u32>(
    password: Seq<char>,
    imported: spec_fn(Vec<u16>, usize) -> bool,
    last_error: E,
    r: CpcspResult<usize>,
) -> bool {
    exists|w: Vec<u16>, h: usize|
        #[trigger] imported(w, h) && w@ == wide_password(password) && (if h == 0 {
            r matches Err(e) && last_error.ensures((), e@)
        } else {
            r == Ok::<usize, CpcspError>(h)
        })
}

/// The export's calls, after the size query reported `cb` bytes: the
/// allocation of `cb` bytes, then the second call.
pub open spec fn export_filled<
    A: FnOnce(DWORD) -> bool,
    G: FnOnce(usize, &Vec<u16>, DWORD, DWORD) -> (BOOL, Vec<u8>),
>(alloc: A, fill: G, store: usize, w: Vec<u16>, flags: DWORD, cb: DWORD, r2: BOOL, data: Vec<u8>) -> bool {
    alloc.ensures((cb,), true) && fill.ensures((store, &w, flags, cb), (r2, data))
}

impl Pfx {
    /// Import a PFX blob into a temporary certificate store
    /// (`PFXImportCertStore`) with the given flags. `call` receives the
    /// data, the password and the flags and returns the store handle
    /// (NULL on failure).
    pub fn import_with_flags<F: FnOnce(&[u8], &Vec<u16>, DWORD) -> usize, E: FnOnce() -> u32>(
        data: &[u8],
        password: &str,
        flags: DWORD,
        call: F,
        last_error: E,
    ) -> (r: CpcspResult<usize>)
        requires
            forall|w: &Vec<u16>| call.requires((data, w, flags)),
            last_error.requires(()),
        ensures
            import_reply(
                password@,
                |w: Vec<u16>, h: usize| call.ensures((data, &w, flags), h),
                last_error,
                r,
            ),
    {
        let w = to_wide(password);
        let h = call(data, &w, flags);
        let ghost imported = |w: Vec<u16>, h: usize| call.ensures((data, &w, flags), h);
        assert(imported(w, h));
        if h == 0 {
            let c = last_error();
            return Err(CpcspError::from_raw(c));
        }
        Ok(h)
    }

    /// Import a PFX blob with `IMPORT_FLAGS`.
    pub fn import<F: FnOnce(&[u8], &Vec<u16>, DWORD) -> usize, E: FnOnce() -> u32>(
        data: &[u8],
        password: &str,
        call: F,
        last_error: E,
    ) -> (r: CpcspResult<usize>)
        requires
            forall|w: &Vec<u16>| call.requires((data, w, IMPORT_FLAGS)),
            last_error.requires(()),
        ensures
            import_reply(
                password@,
                |w: Vec<u16>, h: usize| call.ensures((data, &w, IMPORT_FLAGS), h),
                last_error,
                r,
            ),
    {
        Self::import_with_flags(data, password, IMPORT_FLAGS, call, last_error)
    }

    /// Check a PFX password (`PFXVerifyPassword`, flags 0). `call`
    /// receives the data, the password and the flags; a non-zero result
    /// means the password fits.
    pub fn verify_password<F: FnOnce(&[u8], &Vec<u16>, DWORD) -> BOOL>(
        data: &[u8],
        password: &str,
        call: F,
    ) -> (ok: bool)
        requires
            forall|w: &Vec<u16>| call.requires((data, w, 0u32)),
        ensures
            exists|w: Vec<u16>, b: BOOL|
                #[trigger] call.ensures((data, &w, 0u32), b) && w@ == wide_password(password@) && ok
                    == (b != 0),
    {
        let w = to_wide(password);
        let b = call(data, &w, 0);
        assert(call.ensures((data, &w, 0u32), b));
        b != 0
    }

    /// Export a certificate store as a PFX blob
    /// (`PFXExportCertStoreEx`), in two calls: `query` asks for the size,
    /// `alloc` allocates that many bytes for the output (false when it
    /// cannot), `fill` makes the second call into it and returns the
    /// bytes written.
    ///
    /// A failed call gives the code from `last_error`; a size of zero gives
    /// an empty blob without allocating; a failed allocation gives
    /// `NOT_ENOUGH_MEMORY`.
    pub fn export<
        Q: FnOnce(usize, &Vec<u16>, DWORD) -> (BOOL, DWORD),
        A: FnOnce(DWORD) -> bool,
        G: FnOnce(usize, &Vec<u16>, DWORD, DWORD) -> (BOOL, Vec<u8>),
        E: FnOnce() -> u32,
    >(
        store: usize,
        password: &str,
        flags: DWORD,
        query: Q,
        alloc: A,
        fill: G,
        last_error: E,
    ) -> (r: CpcspResult<Vec<u8>>)
        requires
            forall|w: &Vec<u16>| query.requires((store, w, flags)),
            forall|n: DWORD| alloc.requires((n,)),
            forall|w: &Vec<u16>, n: DWORD| fill.requires((store, w, flags, n)),
            last_error.requires(()),
        ensures
            exists|w: Vec<u16>, r1: BOOL, cb: DWORD|
                #[trigger] query.ensures((store, &w, flags), (r1, cb)) && w@ == wide_password(
                    password@,
                ) && {
                    &&& r matches Ok(v) ==> r1 != 0 && (if cb == 0 {
                        v@ == Seq::<u8>::empty()
                    } else {
                        exists|r2: BOOL, d: Vec<u8>|
                            #[trigger] export_filled(alloc, fill, store, w, flags, cb, r2, d) && r2
                                != 0 && v@ == d@
                    })
                    &&& r matches Err(e) ==> {
                        ||| r1 == 0 && last_error.ensures((), e@)
                        ||| r1 != 0 && cb != 0 && alloc.ensures((cb,), false) && e@
                            == NOT_ENOUGH_MEMORY
                        ||| r1 != 0 && cb != 0 && last_error.ensures((), e@) && exists|d: Vec<u8>|
                            #[trigger] export_filled(alloc, fill, store, w, flags, cb, 0, d)
                    }
                },
    {
        let w = to_wide(password);
        let out = query(store, &w, flags);
        let (r1, cb) = out;
        assert(query.ensures((store, &w, flags), (r1, cb)));
        if r1 == 0 {
            let c = last_error();
            return Err(CpcspError::from_raw(c));
        }
        if cb == 0 {
            return Ok(Vec::new());
        }
        let allocated = alloc(cb);
        if !allocated {
            return Err(CpcspError::from_raw(NOT_ENOUGH_MEMORY));
        }
        let out2 = fill(store, &w, flags, cb);
        let (r2, data) = out2;
        assert(export_filled(alloc, fill, store, w, flags, cb, r2, data));
        if r2 == 0 {
            let c = last_error();
            return Err(CpcspError::from_raw(c));
        }
        Ok(data)
    }
}

} // verus!
