//! The CSP's C data types, as plain Rust values.
//!
//! Scalar types keep their C widths. Pointer fields are held as the
//! address they carry (`usize`, 0 for NULL): the library only moves them
//! between the CSP and its own buffers.
#![allow(non_camel_case_types)]
use vstd::prelude::*;

verus! {

/// Windows `BOOL`: a C `int`, not a Rust `bool`.
pub type BOOL = i32;

/// `DWORD`: 32-bit unsigned.
pub type DWORD = u32;

/// `UINT`: 32-bit unsigned.
pub type UINT = u32;

/// `WORD`: 16-bit unsigned.
pub type WORD = u16;

/// `BYTE`: 8-bit unsigned.
pub type BYTE = u8;

/// `LONG`: 32-bit signed.
pub type LONG = i32;

/// Algorithm identifier.
pub type ALG_ID = u32;

/// `HRESULT` return code.
pub type HRESULT = LONG;

/// Pointer-sized unsigned integer.
pub type ULONG_PTR = usize;

/// Handle of a cryptographic provider.
pub type HCRYPTPROV = ULONG_PTR;

/// Handle of a cryptographic key.
pub type HCRYPTKEY = ULONG_PTR;

/// Handle of a hash object.
pub type HCRYPTHASH = ULONG_PTR;

/// C `TRUE`.
pub const TRUE: BOOL = 1;

/// C `FALSE`.
pub const FALSE: BOOL = 0;

/// The `BOOL` for a flag: `TRUE` or `FALSE`.
pub open spec fn win_bool(b: bool) -> BOOL {
    if b {
        TRUE
    } else {
        FALSE
    }
}

/// Windows FILETIME: 100-nanosecond intervals since 1 January 1601.
#[derive(Clone, Copy, Debug, Default, PartialEq, Eq, Structural)]
pub struct FILETIME {
    pub dw_low_date_time: DWORD,
    pub dw_high_date_time: DWORD,
}

/// Windows SYSTEMTIME: a calendar date and time of day.
#[derive(Clone, Copy, Debug, Default, PartialEq, Eq, Structural)]
pub struct SYSTEMTIME {
    pub w_year: WORD,
    pub w_month: WORD,
    pub w_day_of_week: WORD,
    pub w_day: WORD,
    pub w_hour: WORD,
    pub w_minute: WORD,
    pub w_second: WORD,
    pub w_milliseconds: WORD,
}

/// The generic binary blob (`CRYPTOAPI_BLOB`): a length and the address
/// of the bytes.
#[derive(Clone, Copy, Debug, PartialEq, Eq, Structural)]
pub struct DataBlob {
    pub cb_data: DWORD,
    pub pb_data: usize,
}

impl DataBlob {
    /// An empty blob: no bytes, NULL address.
    pub fn new_empty() -> (b: Self)
        ensures
            b.cb_data == 0,
            b.pb_data == 0,
    {
        Self { cb_data: 0, pb_data: 0 }
    }
}

/// Names under which the CSP headers use the generic blob.
pub type CRYPT_INTEGER_BLOB = DataBlob;

pub type CRYPT_UINT_BLOB = DataBlob;

pub type CRYPT_OBJID_BLOB = DataBlob;

pub type CERT_NAME_BLOB = DataBlob;

pub type CERT_RDN_VALUE_BLOB = DataBlob;

pub type CERT_BLOB = DataBlob;

pub type CRL_BLOB = DataBlob;

pub type DATA_BLOB = DataBlob;

pub type CRYPT_DATA_BLOB = DataBlob;

pub type CRYPT_HASH_BLOB = DataBlob;

pub type CRYPT_DIGEST_BLOB = DataBlob;

pub type CRYPT_DER_BLOB = DataBlob;

pub type CRYPT_ATTR_BLOB = DataBlob;

/// A blob of bits: the bytes, their address and the number of unused bits
/// in the last byte.
#[derive(Clone, Copy, Debug, PartialEq, Eq, Structural)]
pub struct CRYPT_BIT_BLOB {
    pub cb_data: DWORD,
    pub pb_data: usize,
    pub c_unused_bits: DWORD,
}

/// Header of a key blob: blob type, version and key algorithm.
#[derive(Clone, Copy, Debug, Default, PartialEq, Eq, Structural)]
pub struct BLOBHEADER {
    pub b_type: BYTE,
    pub b_version: BYTE,
    pub reserved: WORD,
    pub ai_key_alg: ALG_ID,
}

/// Header of an RSA public key.
#[derive(Clone, Copy, Debug, Default, PartialEq, Eq, Structural)]
pub struct RSAPUBKEY {
    pub magic: DWORD,
    pub bitlen: DWORD,
    pub pubexp: DWORD,
}

/// Header of a DH/DSS public key.
#[derive(Clone, Copy, Debug, Default, PartialEq, Eq, Structural)]
pub struct DH_DSS_PUBKEY {
    pub magic: DWORD,
    pub bitlen: DWORD,
}

/// Parameters of an HMAC computation.
#[derive(Clone, Copy, Debug, PartialEq, Eq, Structural)]
pub struct HMAC_INFO {
    pub hash_alg_id: ALG_ID,
    pub pb_inner_string: usize,
    pub cb_inner_string: DWORD,
    pub pb_outer_string: usize,
    pub cb_outer_string: DWORD,
}

/// A Secure Channel algorithm.
#[derive(Clone, Copy, Debug, Default, PartialEq, Eq, Structural)]
pub struct SCHANNEL_ALG {
    pub dw_strength: DWORD,
    pub alg_id: ALG_ID,
    pub dw_flags: DWORD,
}

/// A decoded X.500 name value.
#[derive(Clone, Copy, Debug, PartialEq, Eq, Structural)]
pub struct CERT_NAME_VALUE {
    pub dw_value_type: DWORD,
    pub value: DataBlob,
}

/// One parameter of a key provider.
#[derive(Clone, Copy, Debug, PartialEq, Eq, Structural)]
pub struct CRYPT_KEY_PROV_PARAM {
    pub dw_param: DWORD,
    pub pb_data: usize,
    pub cb_data: DWORD,
    pub dw_flags: DWORD,
}

/// Where the private key of a certificate lives.
#[derive(Clone, Copy, Debug)]
pub struct CRYPT_KEY_PROV_INFO {
    pub pwsz_container_name: usize,
    pub pwsz_prov_name: usize,
    pub dw_prov_type: DWORD,
    pub dw_flags: DWORD,
    pub c_prov_param: DWORD,
    _pad0: [u8; 4],
    pub rg_prov_param: usize,
    pub dw_key_spec: DWORD,
    _pad1: [u8; 4],
}

/// An array of URLs.
#[derive(Clone, Copy, Debug)]
pub struct CRYPT_URL_ARRAY {
    pub c_url: DWORD,
    _pad0: [u8; 4],
    pub rgwsz_url: usize,
}

/// Information on a URL.
#[derive(Clone, Copy, Debug)]
pub struct CRYPT_URL_INFO {
    pub cb_size: DWORD,
    pub dw_sync_delta_time: DWORD,
    pub c_group: DWORD,
    _pad0: [u8; 4],
    pub rgc_group_entry: usize,
}

} // verus!
