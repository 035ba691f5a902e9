use cpcsp::raw_types::DataBlob as RawBlob;
use cpcsp::types::blob::{BitBlob, DataBlob};
use cpcsp::types::bool::BOOL;
use cpcsp::types::error::CpcspError;
use cpcsp::types::handle::{Handle, HashHandle, KeyHandle, ProvHandle};

#[test]
fn test_blob_new() {
    let blob = DataBlob::new(&[1, 2, 3, 4]);
    assert_eq!(blob.len(), 4);
    assert_eq!(blob.as_bytes(), &[1, 2, 3, 4]);
}

#[test]
fn test_blob_empty() {
    let blob = DataBlob::new_empty();
    assert!(blob.is_empty());
}

#[test]
fn test_blob_ffi_roundtrip() {
    let blob = DataBlob::new(&[0xAA, 0xBB, 0xCC]);
    let ffi_blob = blob.as_ffi();
    assert_eq!(ffi_blob.cb_data, 3);
    assert_ne!(ffi_blob.pb_data, 0);
    // The C structure points at the blob's own bytes.
    assert_eq!(ffi_blob.pb_data, blob.as_bytes().as_ptr() as usize);
    assert_eq!(blob.as_bytes(), &[0xAA, 0xBB, 0xCC]);
}

#[test]
fn test_blob_from_vec() {
    let blob = DataBlob::from(vec![10, 20, 30]);
    assert_eq!(blob.as_bytes(), &[10, 20, 30]);
}

#[test]
fn test_blob_into_vec() {
    let blob = DataBlob::new(&[5, 6, 7]);
    let v: Vec<u8> = blob.into();
    assert_eq!(v, vec![5, 6, 7]);
}

#[test]
fn test_bit_blob() {
    let bb = BitBlob::new(&[0xFF, 0x80], 1);
    assert_eq!(bb.bit_len(), 15);
    assert_eq!(bb.unused_bits(), 1);
}

#[test]
fn blob_vec_round_trip_keeps_bytes() {
    let v = vec![9u8, 8, 7, 0, 255];
    let blob = DataBlob::from_vec(v.clone());
    assert_eq!(blob.into_vec(), v);
}

#[test]
fn blob_zeroed_and_ffi_const() {
    let blob = DataBlob::new_zeroed(5);
    assert_eq!(blob.as_bytes(), &[0, 0, 0, 0, 0]);
    let f = blob.as_ffi_const();
    assert_eq!(f.cb_data, 5);
    let empty = DataBlob::default();
    assert!(empty.is_empty());
}

#[test]
fn blob_bytes_mut_writes_through() {
    let mut blob = DataBlob::new(&[1, 2, 3]);
    blob.as_bytes_mut()[1] = 42;
    assert_eq!(blob.as_bytes(), &[1, 42, 3]);
    let r: &[u8] = blob.as_ref();
    assert_eq!(r, &[1, 42, 3]);
}

#[test]
fn bit_blob_ffi_fields() {
    let bb = BitBlob::new(&[1, 2, 3], 4);
    assert_eq!(bb.as_bytes(), &[1, 2, 3]);
    assert_eq!(bb.bit_len(), 20);
    let f = bb.as_ffi();
    assert_eq!(f.cb_data, 3);
    assert_eq!(f.c_unused_bits, 4);
}

#[test]
fn test_error_from_code() {
    let err = CpcspError::from_raw(2);
    assert_eq!(err.code(), 2);
    assert!(!err.is_success());
}

#[test]
fn test_success() {
    let err = CpcspError::from_raw(0);
    assert!(err.is_success());
}

#[test]
fn error_message_is_padded_hex() {
    let err = CpcspError::from_raw(0x80070057);
    assert_eq!(err.message(), Some("CryptoPro error code: 0x80070057".to_string()));
    let small = CpcspError::from_raw(0x57);
    assert_eq!(small.message(), Some("CryptoPro error code: 0x00000057".to_string()));
}

#[test]
fn test_prov_handle_null() {
    let h = ProvHandle::from_raw(0);
    assert!(h.is_null());
}

#[test]
fn test_key_handle_raw() {
    let h = KeyHandle::from_raw(0xDEAD);
    assert_eq!(h.raw(), 0xDEAD);
    assert!(!h.is_null());
}

#[test]
fn test_hash_handle_raw() {
    let h = HashHandle::from_raw(0xBEEF);
    assert_eq!(h.raw(), 0xBEEF);
}

#[test]
fn generic_handle_raw() {
    let h: Handle<u8> = Handle::from_raw(7);
    assert_eq!(h.raw(), 7);
    assert!(!h.is_null());
    let z: Handle<u8> = Handle::from_raw(0);
    assert!(z.is_null());
}

#[test]
fn test_bool_true() {
    let b = BOOL::from_raw(1);
    assert!(b.is_true());
    assert!(!b.is_false());
    assert_eq!(b.as_raw(), 1);
}

#[test]
fn test_bool_false() {
    let b = BOOL::from_raw(0);
    assert!(!b.is_true());
    assert!(b.is_false());
    assert_eq!(b.as_raw(), 0);
}

#[test]
fn test_bool_nonstandard_true() {
    let b = BOOL::from_raw(42);
    assert!(b.is_true());
    assert_eq!(b.as_raw(), 1);
}

#[test]
fn test_bool_from_rust_bool() {
    assert_eq!(BOOL::from(true), BOOL::TRUE());
    assert_eq!(BOOL::from(false), BOOL::FALSE());
}

#[test]
fn test_bool_into_rust_bool() {
    assert!(bool::from(BOOL::TRUE()));
    assert!(!bool::from(BOOL::FALSE()));
}

#[test]
fn bool_round_trips_and_text() {
    assert_eq!(i32::from(BOOL::from(-5i32)), 1);
    assert_eq!(i32::from(BOOL::from(0i32)), 0);
    assert!(bool::from(BOOL::from(true)));
    assert_eq!(BOOL::default(), BOOL::FALSE());
    assert_eq!(BOOL::TRUE().to_text(), "TRUE");
    assert_eq!(BOOL::FALSE().to_text(), "FALSE");
}

#[test]
fn blob_clone_from_ffi() {
    let mut blob = DataBlob::new(&[1, 2]);
    blob.clone_from_ffi(&RawBlob { cb_data: 3, pb_data: 0x1000 }, |addr, len| {
        assert_eq!((addr, len), (0x1000, 3));
        vec![7, 8, 9]
    });
    assert_eq!(blob.as_bytes(), &[7, 8, 9]);
    blob.clone_from_ffi(&RawBlob { cb_data: 3, pb_data: 0 }, |_, _| panic!("no read of NULL"));
    assert!(blob.is_empty());
    let mut other = DataBlob::new(&[4]);
    other.clone_from_ffi(&RawBlob::new_empty(), |_, _| panic!("no read of empty"));
    assert!(other.is_empty());
}
