// Sizes of the CSP's C types as this crate declares them.
use std::mem::size_of;

use cpcsp::raw_types::{
    ALG_ID, BOOL, HCRYPTHASH, HCRYPTKEY, HCRYPTPROV, BLOBHEADER, BYTE, CRYPT_INTEGER_BLOB, CRYPT_KEY_PROV_INFO, CRYPT_KEY_PROV_PARAM,
    CRYPT_URL_ARRAY, CRYPT_URL_INFO, DWORD, DataBlob, FILETIME, LONG, RSAPUBKEY, SYSTEMTIME, WORD,
};

/// The address of a value, read from its `{:p}` rendering.
fn addr<T>(r: &T) -> usize {
    let text = format!("{:p}", r);
    usize::from_str_radix(text.trim_start_matches("0x"), 16).unwrap()
}

#[test]
fn test_bool_size() {
    assert_eq!(size_of::<BOOL>(), 4);
}

#[test]
fn test_hcryptprov_size() {
    assert_eq!(size_of::<HCRYPTPROV>(), 8);
}

#[test]
fn test_hcryptkey_size() {
    assert_eq!(size_of::<HCRYPTKEY>(), 8);
}

#[test]
fn test_hcrysthash_size() {
    assert_eq!(size_of::<HCRYPTHASH>(), 8);
}

#[test]
fn test_dword_size() {
    assert_eq!(size_of::<DWORD>(), 4);
}

#[test]
fn test_word_size() {
    assert_eq!(size_of::<WORD>(), 2);
}

#[test]
fn test_byte_size() {
    assert_eq!(size_of::<BYTE>(), 1);
}

#[test]
fn test_long_size() {
    assert_eq!(size_of::<LONG>(), 4);
}

#[test]
fn test_alg_id_size() {
    assert_eq!(size_of::<ALG_ID>(), 4);
}

#[test]
fn test_data_blob_size() {
    assert_eq!(size_of::<DataBlob>(), 16);
}

#[test]
fn test_crypt_integer_blob_is_data_blob() {
    assert_eq!(size_of::<CRYPT_INTEGER_BLOB>(), size_of::<DataBlob>());
}

#[test]
fn test_blobheader_size() {
    assert_eq!(size_of::<BLOBHEADER>(), 8);
}

#[test]
fn test_rsapubkey_size() {
    assert_eq!(size_of::<RSAPUBKEY>(), 12);
}

#[test]
fn test_rsapubkey_offsets() {
    let k = RSAPUBKEY { magic: 1, bitlen: 2, pubexp: 3 };
    let base = addr(&k);
    assert_eq!(addr(&k.magic) - base, 0);
    assert_eq!(addr(&k.bitlen) - base, 4);
    assert_eq!(addr(&k.pubexp) - base, 8);
}

#[test]
fn test_filetime_size() {
    assert_eq!(size_of::<FILETIME>(), 8);
}

#[test]
fn test_filetime_offsets() {
    let t = FILETIME { dw_low_date_time: 1, dw_high_date_time: 2 };
    let base = addr(&t);
    assert_eq!(addr(&t.dw_low_date_time) - base, 0);
    assert_eq!(addr(&t.dw_high_date_time) - base, 4);
}

#[test]
fn test_systemtime_size() {
    assert_eq!(size_of::<SYSTEMTIME>(), 16);
}

#[test]
fn test_crypt_key_prov_info_size() {
    assert_eq!(size_of::<CRYPT_KEY_PROV_INFO>(), 48);
}

#[test]
fn test_crypt_key_prov_param_size() {
    assert_eq!(size_of::<CRYPT_KEY_PROV_PARAM>(), 24);
}

#[test]
fn test_crypt_url_array_size() {
    assert_eq!(size_of::<CRYPT_URL_ARRAY>(), 16);
}

#[test]
fn test_crypt_url_info_size() {
    assert_eq!(size_of::<CRYPT_URL_INFO>(), 24);
}

#[test]
fn windows_blob_kinds_are_distinct_structures() {
    use_windows_types();
}

fn use_windows_types() {
    let name = cpcsp::windows_types::CERT_NAME_BLOB { cbData: 2, pbData: 0 };
    let data = cpcsp::windows_types::CRYPT_DATA_BLOB { cbData: 3, pbData: 0 };
    let int = cpcsp::windows_types::CRYPT_INTEGER_BLOB { cbData: 1, pbData: 0 };
    let oid = cpcsp::windows_types::CRYPT_OBJID_BLOB { cbData: 0, pbData: 0 };
    assert_eq!((name.cbData, data.cbData, int.cbData, oid.cbData), (2, 3, 1, 0));
    assert_eq!(size_of::<cpcsp::windows_types::CRYPT_DATA_BLOB>(), 16);
    assert_eq!(size_of::<cpcsp::windows_types::FILETIME>(), 8);
    let t = cpcsp::windows_types::FILETIME { dwLowDateTime: 1, dwHighDateTime: 2 };
    assert_eq!((t.dwLowDateTime, t.dwHighDateTime), (1, 2));
}
