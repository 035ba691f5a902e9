//! ASN.1: DER encoding, signing and encoding, and binary data as Base64
//! or hex text and back.
//!
//! The work itself is done by `CryptEncodeObject`,
//! `CryptSignAndEncodeCertificate`, `CryptBinaryToStringA` and
//! `CryptStringToBinaryA`, each called twice (size, then data). The calls
//! are passed in as closures that receive every argument this module
//! decides: the string format or key type, the C string of the input
//! text or structure OID, the buffer and its size.
use vstd::prelude::*;
use vstd::utf8::{decode_utf8, valid_utf8};
use crate::ffi_helpers::buffer::{truncated, zeroed};
use crate::ffi_helpers::string::{c_string_of, to_c_string};
use crate::raw_constants::{
    CRYPT_STRING_BASE64, CRYPT_STRING_BASE64HEADER, CRYPT_STRING_HEX, PKCS_7_ASN_ENCODING,
    X509_ASN_ENCODING,
};
use crate::raw_types::DWORD;
use crate::text::string_from_utf8;
use crate::types::error::{CpcspError, CpcspResult};

verus! {

/// ASN.1 operations: DER encoding, signing and encoding, and conversions
/// between binary data and Base64 or hex text.
pub struct Asn1;

/// The encoding type of certificates and messages.
pub const ENCODING: DWORD = X509_ASN_ENCODING | PKCS_7_ASN_ENCODING;

/// The text bytes kept of a filled output buffer `b` whose reported
/// length is `s`: when the last reported byte is the terminating zero it
/// is cut off; otherwise the whole buffer is kept.
pub open spec fn text_bytes(b: Seq<u8>, s: u32) -> Seq<u8> {
    if s > 0 && b[s - 1] == 0 {
        b.take(s - 1)
    } else {
        b
    }
}

/// `fill`, asked for `format` into `s1` zero bytes, succeeded, and `t` is
/// the text kept of its output.
pub open spec fn text_filled<G: FnOnce(DWORD, Vec<u8>, u32) -> (u32, Vec<u8>, u32)>(
    fill: G,
    format: DWORD,
    s1: u32,
    t: Seq<u8>,
) -> bool {
    exists|b0: Vec<u8>, r2: u32, b2: Vec<u8>, s2: u32|
        #[trigger] fill.ensures((format, b0, s1), (r2, b2, s2)) && b0@ == zeroed(s1 as nat) && r2
            != 0 && t == text_bytes(b2@, s2)
}

/// `fill`, asked for `format` into `s1` zero bytes, failed.
pub open spec fn text_fill_failed<G: FnOnce(DWORD, Vec<u8>, u32) -> (u32, Vec<u8>, u32)>(
    fill: G,
    format: DWORD,
    s1: u32,
) -> bool {
    exists|b0: Vec<u8>, b2: Vec<u8>, s2: u32|
        #[trigger] fill.ensures((format, b0, s1), (0u32, b2, s2)) && b0@ == zeroed(s1 as nat)
}

/// What converting binary data to text in `format` gives, in terms of the
/// replies of the two calls: the size query's error; empty text for a
/// size of zero; the fill's error; `ERROR_INVALID_PARAMETER` (0x57) for
/// output that is not UTF-8; else the decoded text.
pub open spec fn text_reply<
    F: FnOnce(DWORD, u32) -> (u32, u32),
    G: FnOnce(DWORD, Vec<u8>, u32) -> (u32, Vec<u8>, u32),
    E: FnOnce() -> u32,
>(get_size: F, fill: G, last_error: E, format: DWORD, r: CpcspResult<String>) -> bool {
    &&& r matches Ok(s) ==> exists|r1: u32, s1: u32|
        #[trigger] get_size.ensures((format, 0u32), (r1, s1)) && r1 != 0 && (if s1 == 0 {
            s@ == Seq::<char>::empty()
        } else {
            exists|t: Seq<u8>|
                #[trigger] text_filled(fill, format, s1, t) && valid_utf8(t) && s@ == decode_utf8(
                    t,
                )
        })
    &&& r matches Err(e) ==> exists|r1: u32, s1: u32|
        #[trigger] get_size.ensures((format, 0u32), (r1, s1)) && {
            ||| r1 == 0 && last_error.ensures((), e@)
            ||| r1 != 0 && s1 != 0 && text_fill_failed(fill, format, s1) && last_error.ensures(
                (),
                e@,
            )
            ||| r1 != 0 && s1 != 0 && e@ == 0x57 && exists|t: Seq<u8>|
                #[trigger] text_filled(fill, format, s1, t) && !valid_utf8(t)
        }
}

/// What the conversion's closures must allow: any call with `format`,
/// and a fill that hands back the buffer it was given, never reporting
/// more bytes than it holds.
pub open spec fn text_calls_ok<
    F: FnOnce(DWORD, u32) -> (u32, u32),
    G: FnOnce(DWORD, Vec<u8>, u32) -> (u32, Vec<u8>, u32),
    E: FnOnce() -> u32,
>(get_size: F, fill: G, last_error: E, format: DWORD) -> bool {
    &&& get_size.requires((format, 0u32))
    &&& forall|b: Vec<u8>, s: u32| fill.requires((format, b, s))
    &&& forall|b: Vec<u8>, s: u32, r2: u32, b2: Vec<u8>, s2: u32|
        #[trigger] fill.ensures((format, b, s), (r2, b2, s2)) ==> s2 <= b2@.len() && b2@.len()
            == b@.len()
    &&& last_error.requires(())
}


/// `fill`, given the C string `c`, asked for `format` into `s1` zero
/// bytes, succeeded and its output cut to the length it reported is `v`.
pub open spec fn binary_filled<G: FnOnce(&Vec<u8>, DWORD, Vec<u8>, u32) -> (u32, Vec<u8>, u32)>(
    fill: G,
    c: Vec<u8>,
    format: DWORD,
    s1: u32,
    v: Seq<u8>,
) -> bool {
    exists|b0: Vec<u8>, r2: u32, b2: Vec<u8>, s2: u32|
        #[trigger] fill.ensures((&c, format, b0, s1), (r2, b2, s2)) && b0@ == zeroed(s1 as nat)
            && r2 != 0 && v == truncated(b2@, s2 as int)
}

/// `fill`, given the C string `c`, asked for `format` into `s1` zero
/// bytes, failed.
pub open spec fn binary_fill_failed<
    G: FnOnce(&Vec<u8>, DWORD, Vec<u8>, u32) -> (u32, Vec<u8>, u32),
>(fill: G, c: Vec<u8>, format: DWORD, s1: u32) -> bool {
    exists|b0: Vec<u8>, b2: Vec<u8>, s2: u32|
        #[trigger] fill.ensures((&c, format, b0, s1), (0u32, b2, s2)) && b0@ == zeroed(s1 as nat)
}

/// What a call with the C string of `text` and the `DWORD` argument
/// `format` (a string format, an encoding type or a key type) gives:
/// `ERROR_INVALID_PARAMETER` (0x57) when the text holds a zero character,
/// before any call;
/// otherwise, with the text's C string `c`, the size query's error, an
/// empty result for a size of zero, the fill's error, or the bytes the
/// fill reported.
pub open spec fn binary_reply<
    F: FnOnce(&Vec<u8>, DWORD, u32) -> (u32, u32),
    G: FnOnce(&Vec<u8>, DWORD, Vec<u8>, u32) -> (u32, Vec<u8>, u32),
    E: FnOnce() -> u32,
>(
    text: Seq<char>,
    get_size: F,
    fill: G,
    last_error: E,
    format: DWORD,
    r: CpcspResult<Vec<u8>>,
) -> bool {
    &&& text.contains('\0') ==> (r matches Err(e) && e@ == 0x57)
    &&& !text.contains('\0') ==> {
        &&& r matches Ok(v) ==> exists|c: Vec<u8>, r1: u32, s1: u32|
            #[trigger] get_size.ensures((&c, format, 0u32), (r1, s1)) && c@ == c_string_of(text)
                && r1 != 0 && (if s1 == 0 {
                v@ == Seq::<u8>::empty()
            } else {
                binary_filled(fill, c, format, s1, v@)
            })
        &&& r matches Err(e) ==> last_error.ensures((), e@) && exists|c: Vec<u8>, r1: u32, s1: u32|
            #[trigger] get_size.ensures((&c, format, 0u32), (r1, s1)) && c@ == c_string_of(text)
                && (r1 == 0 || (s1 != 0 && binary_fill_failed(fill, c, format, s1)))
    }
}

impl Asn1 {
    /// Convert binary data to text with `CryptBinaryToStringA` in the given
    /// format: `get_size(format, 0)` asks for the size, `fill(format,
    /// buffer, size)` writes the text. A trailing zero reported as part of
    /// the text is cut off.
    pub fn binary_to_string<F, G, E>(format: DWORD, get_size: F, fill: G, last_error: E) -> (r:
        CpcspResult<String>) where
        F: FnOnce(DWORD, u32) -> (u32, u32),
        G: FnOnce(DWORD, Vec<u8>, u32) -> (u32, Vec<u8>, u32),
        E: FnOnce() -> u32,

        requires
            text_calls_ok(get_size, fill, last_error, format),
        ensures
            text_reply(get_size, fill, last_error, format, r),
    {
        let out = get_size(format, 0);
        let (r1, s1) = out;
        assert(get_size.ensures((format, 0u32), (r1, s1)));
        if r1 == 0 {
            let c = last_error();
            return Err(CpcspError::from_raw(c));
        }
        if s1 == 0 {
            return Ok(String::new());
        }
        let buf: Vec<u8> = vec![0u8; s1 as usize];
        assert(buf@ =~= zeroed(s1 as nat));
        let ghost b0 = buf;
        let out2 = fill(format, buf, s1);
        let (r2, b2, s2) = out2;
        assert(fill.ensures((format, b0, s1), (r2, b2, s2)));
        if r2 == 0 {
            let c = last_error();
            assert(text_fill_failed(fill, format, s1));
            return Err(CpcspError::from_raw(c));
        }
        let ghost t = text_bytes(b2@, s2);
        assert(text_filled(fill, format, s1, t));
        let mut text = b2;
        if s2 > 0 && text[(s2 - 1) as usize] == 0 {
            text.truncate((s2 - 1) as usize);
        }
        assert(text@ =~= t);
        match string_from_utf8(text) {
            Some(s) => Ok(s),
            None => Err(CpcspError::from_raw(0x57)),
        }
    }

    /// Base64 text of binary data (`CRYPT_STRING_BASE64`).
    pub fn binary_to_base64<F, G, E>(get_size: F, fill: G, last_error: E) -> (r: CpcspResult<
        String,
    >) where
        F: FnOnce(DWORD, u32) -> (u32, u32),
        G: FnOnce(DWORD, Vec<u8>, u32) -> (u32, Vec<u8>, u32),
        E: FnOnce() -> u32,

        requires
            text_calls_ok(get_size, fill, last_error, CRYPT_STRING_BASE64),
        ensures
            text_reply(get_size, fill, last_error, CRYPT_STRING_BASE64, r),
    {
        Self::binary_to_string(CRYPT_STRING_BASE64, get_size, fill, last_error)
    }

    /// Base64 text with the PEM header and footer
    /// (`CRYPT_STRING_BASE64HEADER`).
    pub fn binary_to_base64_header<F, G, E>(get_size: F, fill: G, last_error: E) -> (r:
        CpcspResult<String>) where
        F: FnOnce(DWORD, u32) -> (u32, u32),
        G: FnOnce(DWORD, Vec<u8>, u32) -> (u32, Vec<u8>, u32),
        E: FnOnce() -> u32,

        requires
            text_calls_ok(get_size, fill, last_error, CRYPT_STRING_BASE64HEADER),
        ensures
            text_reply(get_size, fill, last_error, CRYPT_STRING_BASE64HEADER, r),
    {
        Self::binary_to_string(CRYPT_STRING_BASE64HEADER, get_size, fill, last_error)
    }

    /// Hex text of binary data (`CRYPT_STRING_HEX`).
    pub fn binary_to_hex<F, G, E>(get_size: F, fill: G, last_error: E) -> (r: CpcspResult<String>) where
        F: FnOnce(DWORD, u32) -> (u32, u32),
        G: FnOnce(DWORD, Vec<u8>, u32) -> (u32, Vec<u8>, u32),
        E: FnOnce() -> u32,

        requires
            text_calls_ok(get_size, fill, last_error, CRYPT_STRING_HEX),
        ensures
            text_reply(get_size, fill, last_error, CRYPT_STRING_HEX, r),
    {
        Self::binary_to_string(CRYPT_STRING_HEX, get_size, fill, last_error)
    }
    /// The two calls of a CSP function that takes a C string and a
    /// `DWORD` argument and writes binary data: the string is passed as a
    /// C string, `get_size(c, arg, 0)` asks for the size and `fill(c, arg,
    /// buffer, size)` writes the data, which is cut to the reported length.
    fn call_with_c_string<F, G, E>(
        text: &str,
        arg: DWORD,
        get_size: F,
        fill: G,
        last_error: E,
    ) -> (r: CpcspResult<Vec<u8>>) where
        F: FnOnce(&Vec<u8>, DWORD, u32) -> (u32, u32),
        G: FnOnce(&Vec<u8>, DWORD, Vec<u8>, u32) -> (u32, Vec<u8>, u32),
        E: FnOnce() -> u32,

        requires
            forall|c: &Vec<u8>| get_size.requires((c, arg, 0u32)),
            forall|c: &Vec<u8>, b: Vec<u8>, s: u32| fill.requires((c, arg, b, s)),
            forall|c: &Vec<u8>, b: Vec<u8>, s: u32, r2: u32, b2: Vec<u8>, s2: u32| #[trigger] fill.ensures((c, arg, b, s), (r2, b2, s2)) ==> b2@.len() == b@.len(),
            last_error.requires(()),
        ensures
            binary_reply(text@, get_size, fill, last_error, arg, r),
    {
        let c = match to_c_string(text) {
            Ok(c) => c,
            Err(e) => return Err(e),
        };
        let out = get_size(&c, arg, 0);
        let (r1, s1) = out;
        assert(get_size.ensures((&c, arg, 0u32), (r1, s1)));
        if r1 == 0 {
            let code = last_error();
            return Err(CpcspError::from_raw(code));
        }
        if s1 == 0 {
            return Ok(Vec::new());
        }
        let buf: Vec<u8> = vec![0u8; s1 as usize];
        assert(buf@ =~= zeroed(s1 as nat));
        let ghost b0 = buf;
        let out2 = fill(&c, arg, buf, s1);
        let (r2, b2, s2) = out2;
        assert(fill.ensures((&c, arg, b0, s1), (r2, b2, s2)));
        if r2 == 0 {
            let code = last_error();
            assert(binary_fill_failed(fill, c, arg, s1));
            return Err(CpcspError::from_raw(code));
        }
        let mut data = b2;
        data.truncate(s2 as usize);
        assert(data@ =~= truncated(b2@, s2 as int));
        assert(binary_filled(fill, c, arg, s1, data@));
        Ok(data)
    }


    /// Decode text in the given format to binary data with
    /// `CryptStringToBinaryA` (see `call_with_c_string`, with the format
    /// as the `DWORD` argument).
    pub fn string_to_binary<F, G, E>(
        text: &str,
        format: DWORD,
        get_size: F,
        fill: G,
        last_error: E,
    ) -> (r: CpcspResult<Vec<u8>>) where
        F: FnOnce(&Vec<u8>, DWORD, u32) -> (u32, u32),
        G: FnOnce(&Vec<u8>, DWORD, Vec<u8>, u32) -> (u32, Vec<u8>, u32),
        E: FnOnce() -> u32,

        requires
            forall|c: &Vec<u8>| get_size.requires((c, format, 0u32)),
            forall|c: &Vec<u8>, b: Vec<u8>, s: u32| fill.requires((c, format, b, s)),
            forall|c: &Vec<u8>, b: Vec<u8>, s: u32, r2: u32, b2: Vec<u8>, s2: u32| #[trigger] fill.ensures((c, format, b, s), (r2, b2, s2)) ==> b2@.len() == b@.len(),
            last_error.requires(()),
        ensures
            binary_reply(text@, get_size, fill, last_error, format, r),
    {
        Self::call_with_c_string(text, format, get_size, fill, last_error)
    }

    /// Encode a structure to DER (`CryptEncodeObject`): the structure's
    /// OID is passed as a C string with the encoding type
    /// `X509_ASN_ENCODING | PKCS_7_ASN_ENCODING` (see
    /// `call_with_c_string`); the calls carry the structure itself.
    pub fn encode<F, G, E>(struct_oid: &str, get_size: F, fill: G, last_error: E) -> (r:
        CpcspResult<Vec<u8>>) where
        F: FnOnce(&Vec<u8>, DWORD, u32) -> (u32, u32),
        G: FnOnce(&Vec<u8>, DWORD, Vec<u8>, u32) -> (u32, Vec<u8>, u32),
        E: FnOnce() -> u32,

        requires
            forall|c: &Vec<u8>| get_size.requires((c, ENCODING, 0u32)),
            forall|c: &Vec<u8>, b: Vec<u8>, s: u32| fill.requires((c, ENCODING, b, s)),
            forall|c: &Vec<u8>, b: Vec<u8>, s: u32, r2: u32, b2: Vec<u8>, s2: u32| #[trigger] fill.ensures((c, ENCODING, b, s), (r2, b2, s2)) ==> b2@.len() == b@.len(),
            last_error.requires(()),
        ensures
            binary_reply(struct_oid@, get_size, fill, last_error, ENCODING, r),
    {
        Self::call_with_c_string(struct_oid, ENCODING, get_size, fill, last_error)
    }

    /// Sign and encode a to-be-signed structure
    /// (`CryptSignAndEncodeCertificate`): the structure's OID is passed as
    /// a C string with the key type `key_spec` (see `call_with_c_string`);
    /// the calls carry the provider, the structure and the signature
    /// algorithm.
    pub fn sign_and_encode<F, G, E>(
        key_spec: DWORD,
        struct_oid: &str,
        get_size: F,
        fill: G,
        last_error: E,
    ) -> (r: CpcspResult<Vec<u8>>) where
        F: FnOnce(&Vec<u8>, DWORD, u32) -> (u32, u32),
        G: FnOnce(&Vec<u8>, DWORD, Vec<u8>, u32) -> (u32, Vec<u8>, u32),
        E: FnOnce() -> u32,

        requires
            forall|c: &Vec<u8>| get_size.requires((c, key_spec, 0u32)),
            forall|c: &Vec<u8>, b: Vec<u8>, s: u32| fill.requires((c, key_spec, b, s)),
            forall|c: &Vec<u8>, b: Vec<u8>, s: u32, r2: u32, b2: Vec<u8>, s2: u32| #[trigger] fill.ensures((c, key_spec, b, s), (r2, b2, s2)) ==> b2@.len() == b@.len(),
            last_error.requires(()),
        ensures
            binary_reply(struct_oid@, get_size, fill, last_error, key_spec, r),
    {
        Self::call_with_c_string(struct_oid, key_spec, get_size, fill, last_error)
    }

    /// Binary data from Base64 text (`CRYPT_STRING_BASE64`).
    pub fn base64_to_binary<F, G, E>(base64: &str, get_size: F, fill: G, last_error: E) -> (r:
        CpcspResult<Vec<u8>>) where
        F: FnOnce(&Vec<u8>, DWORD, u32) -> (u32, u32),
        G: FnOnce(&Vec<u8>, DWORD, Vec<u8>, u32) -> (u32, Vec<u8>, u32),
        E: FnOnce() -> u32,

        requires
            forall|c: &Vec<u8>| get_size.requires((c, CRYPT_STRING_BASE64, 0u32)),
            forall|c: &Vec<u8>, b: Vec<u8>, s: u32| fill.requires((c, CRYPT_STRING_BASE64, b, s)),
            forall|c: &Vec<u8>, b: Vec<u8>, s: u32, r2: u32, b2: Vec<u8>, s2: u32| #[trigger] fill.ensures((c, CRYPT_STRING_BASE64, b, s), (r2, b2, s2)) ==> b2@.len() == b@.len(),
            last_error.requires(()),
        ensures
            binary_reply(base64@, get_size, fill, last_error, CRYPT_STRING_BASE64, r),
    {
        Self::string_to_binary(base64, CRYPT_STRING_BASE64, get_size, fill, last_error)
    }

    /// Binary data from hex text (`CRYPT_STRING_HEX`).
    pub fn hex_to_binary<F, G, E>(hex: &str, get_size: F, fill: G, last_error: E) -> (r:
        CpcspResult<Vec<u8>>) where
        F: FnOnce(&Vec<u8>, DWORD, u32) -> (u32, u32),
        G: FnOnce(&Vec<u8>, DWORD, Vec<u8>, u32) -> (u32, Vec<u8>, u32),
        E: FnOnce() -> u32,

        requires
            forall|c: &Vec<u8>| get_size.requires((c, CRYPT_STRING_HEX, 0u32)),
            forall|c: &Vec<u8>, b: Vec<u8>, s: u32| fill.requires((c, CRYPT_STRING_HEX, b, s)),
            forall|c: &Vec<u8>, b: Vec<u8>, s: u32, r2: u32, b2: Vec<u8>, s2: u32| #[trigger] fill.ensures((c, CRYPT_STRING_HEX, b, s), (r2, b2, s2)) ==> b2@.len() == b@.len(),
            last_error.requires(()),
        ensures
            binary_reply(hex@, get_size, fill, last_error, CRYPT_STRING_HEX, r),
    {
        Self::string_to_binary(hex, CRYPT_STRING_HEX, get_size, fill, last_error)
    }
}

} // verus!
