//! CryptoPro PKI extensions: certificate installation, PIN callbacks and
//! OID information.
//!
//! The lookups and the installation are calls into the CSP
//! (`CPCryptGetDefaultHashOIDInfo`, `CPCryptInstallCertificate`, ...).
//! They are passed in as closures that receive every argument this module
//! decides (C strings, UTF-16 strings, flags); this module turns the
//! arguments into what the calls take and their replies into results.
use vstd::prelude::*;
use vstd::utf8::{decode_utf8, valid_utf8};
use crate::ffi_helpers::string::{
    c_string_of, decode_utf16_lossy, encode_utf16, from_ansi, from_wide_lossy, to_c_string, to_wide,
    until_zero,
};
use crate::raw_types::{win_bool, ALG_ID, BOOL, DWORD, FALSE, TRUE};
use crate::text::{string_from_utf8_lossy, utf8_lossy};
use crate::types::error::{CpcspError, CpcspResult};

verus! {

/// Information about an OID (`CRYPT_OID_INFO`).
#[derive(Debug, Clone)]
pub struct OidInfo {
    /// The OID string.
    pub oid: String,
    /// The algorithm's name.
    pub name: String,
    /// The OID group.
    pub group_id: DWORD,
    /// The algorithm identifier.
    pub alg_id: ALG_ID,
}

/// `ERROR_FILE_NOT_FOUND` as an `HRESULT`: the lookup found nothing.
pub const OID_NOT_FOUND: u32 = 0x80070002;

impl OidInfo {
    /// The information read from a `CRYPT_OID_INFO`: the bytes of its
    /// `pszOID` C string (`None` for a NULL pointer) decoded as UTF-8 with
    /// invalid sequences replaced, and its `pwszName` UTF-16 string up to
    /// the terminating zero (`None` for NULL) decoded the same way; a NULL
    /// string gives an empty one.
    pub fn from_parts(
        oid: Option<&[u8]>,
        name: Option<&[u16]>,
        group_id: DWORD,
        alg_id: ALG_ID,
    ) -> (info: Self)
        ensures
            info.oid@ == (match oid {
                Some(b) => utf8_lossy(b@),
                None => Seq::<char>::empty(),
            }),
            oid matches Some(b) ==> (valid_utf8(b@) ==> info.oid@ == decode_utf8(b@)),
            info.name@ == (match name {
                Some(u) => decode_utf16_lossy(until_zero(u@, 0u16)),
                None => Seq::<char>::empty(),
            }),
            info.group_id == group_id,
            info.alg_id == alg_id,
    {
        let oid = match oid {
            Some(b) => string_from_utf8_lossy(b),
            None => String::new(),
        };
        let name = match name {
            Some(u) => from_wide_lossy(u),
            None => String::new(),
        };
        OidInfo { oid, name, group_id, alg_id }
    }
}

/// The result of an OID lookup that found `o`: the information, or
/// `OID_NOT_FOUND`.
pub open spec fn oid_found(o: Option<OidInfo>, r: CpcspResult<OidInfo>) -> bool {
    match o {
        Some(i) => r == Ok::<OidInfo, CpcspError>(i),
        None => r matches Err(e) && e@ == OID_NOT_FOUND,
    }
}

/// CryptoPro PKI functions.
pub struct Pki;

/// What a lookup by the OID `oid` gives, where `looked_up(c, o)` says that
/// the lookup, handed the C string `c`, found `o`:
/// `ERROR_INVALID_PARAMETER` (0x57) for an OID holding a zero character,
/// else the information found or `OID_NOT_FOUND`.
pub open spec fn oid_lookup_reply(
    oid: Seq<char>,
    looked_up: spec_fn(Vec<u8>, Option<OidInfo>) -> bool,
    r: CpcspResult<OidInfo>,
) -> bool {
    &&& oid.contains('\0') ==> (r matches Err(e) && e@ == 0x57)
    &&& !oid.contains('\0') ==> exists|c: Vec<u8>, o: Option<OidInfo>|
        #[trigger] looked_up(c, o) && c@ == c_string_of(oid) && oid_found(o, r)
}

impl Pki {
    /// The PIN written by `CPCryptGetPinFromCallback`: a failed call
    /// (`result` zero) gives the code from `last_error`; otherwise the
    /// bytes of `buffer` up to the first zero must be UTF-8, else the
    /// result is `ERROR_INVALID_PARAMETER` (0x57).
    pub fn pin_from_reply<E: FnOnce() -> u32>(result: BOOL, buffer: &[u8], last_error: E) -> (r:
        CpcspResult<String>)
        requires
            last_error.requires(()),
        ensures
            result == 0 ==> (r matches Err(e) && last_error.ensures((), e@)),
            result != 0 ==> (r is Ok <==> valid_utf8(until_zero(buffer@, 0u8))),
            result != 0 ==> (r matches Ok(s) ==> s@ == decode_utf8(until_zero(buffer@, 0u8))),
            result != 0 ==> (r matches Err(e) ==> e@ == 0x57),
    {
        if result == 0 {
            let c = last_error();
            return Err(CpcspError::from_raw(c));
        }
        match from_ansi(buffer) {
            Some(s) => Ok(s),
            None => Err(CpcspError::from_raw(0x57)),
        }
    }

    /// The default hash algorithm for a public key OID
    /// (`CPCryptGetDefaultHashOIDInfo`); `lookup` receives the OID's C
    /// string.
    pub fn get_default_hash_oid_info<F: FnOnce(&Vec<u8>) -> Option<OidInfo>>(
        pub_key_oid: &str,
        lookup: F,
    ) -> (r: CpcspResult<OidInfo>)
        requires
            forall|c: &Vec<u8>| lookup.requires((c,)),
        ensures
            oid_lookup_reply(pub_key_oid@, |c: Vec<u8>, o: Option<OidInfo>| lookup.ensures((&c,), o), r),
    {
        let c = match to_c_string(pub_key_oid) {
            Ok(c) => c,
            Err(e) => return Err(e),
        };
        let o = lookup(&c);
        let ghost looked_up = |c: Vec<u8>, o: Option<OidInfo>| lookup.ensures((&c,), o);
        assert(looked_up(c, o));
        let r = match o {
            Some(i) => Ok(i),
            None => Err(CpcspError::from_raw(OID_NOT_FOUND)),
        };
        assert(oid_found(o, r));
        r
    }
    /// The default signature algorithm for a public key OID
    /// (`CPCryptGetDefaultSignatureOIDInfo`); `lookup` receives the OID's
    /// C string.
    pub fn get_default_signature_oid_info<F: FnOnce(&Vec<u8>) -> Option<OidInfo>>(
        pub_key_oid: &str,
        lookup: F,
    ) -> (r: CpcspResult<OidInfo>)
        requires
            forall|c: &Vec<u8>| lookup.requires((c,)),
        ensures
            oid_lookup_reply(pub_key_oid@, |c: Vec<u8>, o: Option<OidInfo>| lookup.ensures((&c,), o), r),
    {
        let c = match to_c_string(pub_key_oid) {
            Ok(c) => c,
            Err(e) => return Err(e),
        };
        let o = lookup(&c);
        let ghost looked_up = |c: Vec<u8>, o: Option<OidInfo>| lookup.ensures((&c,), o);
        assert(looked_up(c, o));
        let r = match o {
            Some(i) => Ok(i),
            None => Err(CpcspError::from_raw(OID_NOT_FOUND)),
        };
        assert(oid_found(o, r));
        r
    }

    /// The public key algorithm for an OID and key type
    /// (`CPCryptGetPublicKeyOIDInfo`); `lookup` receives the OID's C string
    /// and `key_spec`.
    pub fn get_public_key_oid_info<F: FnOnce(&Vec<u8>, DWORD) -> Option<OidInfo>>(
        pub_key_oid: &str,
        key_spec: DWORD,
        lookup: F,
    ) -> (r: CpcspResult<OidInfo>)
        requires
            forall|c: &Vec<u8>| lookup.requires((c, key_spec)),
        ensures
            oid_lookup_reply(
                pub_key_oid@,
                |c: Vec<u8>, o: Option<OidInfo>| lookup.ensures((&c, key_spec), o),
                r,
            ),
    {
        let c = match to_c_string(pub_key_oid) {
            Ok(c) => c,
            Err(e) => return Err(e),
        };
        let o = lookup(&c, key_spec);
        let ghost looked_up = |c: Vec<u8>, o: Option<OidInfo>| lookup.ensures((&c, key_spec), o);
        assert(looked_up(c, o));
        let r = match o {
            Some(i) => Ok(i),
            None => Err(CpcspError::from_raw(OID_NOT_FOUND)),
        };
        assert(oid_found(o, r));
        r
    }

    /// The signature algorithm for a public key OID and a hash OID
    /// (`CPCryptGetSignatureOIDInfo`); `lookup` receives both C strings.
    /// An OID holding a zero character gives `ERROR_INVALID_PARAMETER`
    /// (0x57), the public key OID checked first.
    pub fn get_signature_oid_info<F: FnOnce(&Vec<u8>, &Vec<u8>) -> Option<OidInfo>>(
        pub_key_oid: &str,
        hash_oid: &str,
        lookup: F,
    ) -> (r: CpcspResult<OidInfo>)
        requires
            forall|c: &Vec<u8>, h: &Vec<u8>| lookup.requires((c, h)),
        ensures
            pub_key_oid@.contains('\0') || hash_oid@.contains('\0') ==> (r matches Err(e) && e@
                == 0x57),
            !pub_key_oid@.contains('\0') && !hash_oid@.contains('\0') ==> exists|
                c: Vec<u8>,
                h: Vec<u8>,
                o: Option<OidInfo>,
            |
                #[trigger] lookup.ensures((&c, &h), o) && c@ == c_string_of(pub_key_oid@) && h@
                    == c_string_of(hash_oid@) && oid_found(o, r),
    {
        let c = match to_c_string(pub_key_oid) {
            Ok(c) => c,
            Err(e) => return Err(e),
        };
        let h = match to_c_string(hash_oid) {
            Ok(h) => h,
            Err(e) => return Err(e),
        };
        let o = lookup(&c, &h);
        assert(lookup.ensures((&c, &h), o));
        let r = match o {
            Some(i) => Ok(i),
            None => Err(CpcspError::from_raw(OID_NOT_FOUND)),
        };
        assert(oid_found(o, r));
        r
    }

    /// The provider's hash algorithm for a public key OID
    /// (`CPCryptGetProviderHashAlgId`); `call` receives the provider handle
    /// and the OID's C string. An identifier of zero means failure and
    /// gives the code from `last_error`.
    pub fn get_provider_hash_alg_id<F: FnOnce(usize, &Vec<u8>) -> ALG_ID, E: FnOnce() -> u32>(
        prov: usize,
        pub_key_oid: &str,
        call: F,
        last_error: E,
    ) -> (r: CpcspResult<ALG_ID>)
        requires
            forall|c: &Vec<u8>| call.requires((prov, c)),
            last_error.requires(()),
        ensures
            pub_key_oid@.contains('\0') ==> (r matches Err(e) && e@ == 0x57),
            !pub_key_oid@.contains('\0') ==> exists|c: Vec<u8>, a: ALG_ID|
                #[trigger] call.ensures((prov, &c), a) && c@ == c_string_of(pub_key_oid@) && (if a
                    == 0 {
                    r matches Err(e) && last_error.ensures((), e@)
                } else {
                    r == Ok::<ALG_ID, CpcspError>(a)
                }),
    {
        let c = match to_c_string(pub_key_oid) {
            Ok(c) => c,
            Err(e) => return Err(e),
        };
        let alg_id = call(prov, &c);
        assert(call.ensures((prov, &c), alg_id));
        if alg_id == 0 {
            let code = last_error();
            return Err(CpcspError::from_raw(code));
        }
        Ok(alg_id)
    }

    /// The default GOST hash algorithm for a public key OID
    /// (`CPGetDefaultGostHashAlgId`); `call` receives the OID's C string.
    /// An identifier of zero gives `OID_NOT_FOUND`.
    pub fn get_default_gost_hash_alg_id<F: FnOnce(&Vec<u8>) -> ALG_ID>(
        pub_key_oid: &str,
        call: F,
    ) -> (r: CpcspResult<ALG_ID>)
        requires
            forall|c: &Vec<u8>| call.requires((c,)),
        ensures
            pub_key_oid@.contains('\0') ==> (r matches Err(e) && e@ == 0x57),
            !pub_key_oid@.contains('\0') ==> exists|c: Vec<u8>, a: ALG_ID|
                #[trigger] call.ensures((&c,), a) && c@ == c_string_of(pub_key_oid@) && (if a
                    == 0 {
                    r matches Err(e) && e@ == OID_NOT_FOUND
                } else {
                    r == Ok::<ALG_ID, CpcspError>(a)
                }),
    {
        let c = match to_c_string(pub_key_oid) {
            Ok(c) => c,
            Err(e) => return Err(e),
        };
        let alg_id = call(&c);
        assert(call.ensures((&c,), alg_id));
        if alg_id == 0 {
            return Err(CpcspError::from_raw(OID_NOT_FOUND));
        }
        Ok(alg_id)
    }

    /// Install a certificate (`CPCryptInstallCertificate`). `call`
    /// receives the provider, the key type, the certificate, the store
    /// name as a zero-terminated UTF-16 string, the store flags and the
    /// container flag as a `BOOL`, and returns the call's result and the
    /// status it reported. A failed call gives the code from `last_error`;
    /// otherwise the status is returned.
    pub fn install_certificate<
        F: FnOnce(usize, DWORD, &[u8], &Vec<u16>, DWORD, BOOL) -> (BOOL, DWORD),
        E: FnOnce() -> u32,
    >(
        prov: usize,
        key_spec: DWORD,
        certificate: &[u8],
        store_name: &str,
        store_flags: DWORD,
        install_to_container: bool,
        call: F,
        last_error: E,
    ) -> (r: CpcspResult<DWORD>)
        requires
            forall|w: &Vec<u16>, b: BOOL|
                call.requires((prov, key_spec, certificate, w, store_flags, b)),
            last_error.requires(()),
        ensures
            exists|w: Vec<u16>, res: BOOL, status: DWORD|
                #[trigger] call.ensures(
                    (
                        prov,
                        key_spec,
                        certificate,
                        &w,
                        store_flags,
                        win_bool(install_to_container),
                    ),
                    (res, status),
                ) && w@ == encode_utf16(store_name@).push(0u16) && (if res == 0 {
                    r matches Err(e) && last_error.ensures((), e@)
                } else {
                    r == Ok::<DWORD, CpcspError>(status)
                }),
    {
        let name = to_wide(store_name);
        let flag: BOOL = if install_to_container {
            TRUE
        } else {
            FALSE
        };
        assert(flag == win_bool(install_to_container));
        let out = call(prov, key_spec, certificate, &name, store_flags, flag);
        let (res, status) = out;
        assert(call.ensures((prov, key_spec, certificate, &name, store_flags, flag), (res, status)));
        if res == 0 {
            let code = last_error();
            return Err(CpcspError::from_raw(code));
        }
        Ok(status)
    }
}

} // verus!
