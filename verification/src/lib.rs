//! Safe, verified core of a CryptoPro CSP 5.0 wrapper.
//!
//! The library holds the data types, decision logic and conversions that sit
//! around the CSP's C interface: blobs, handles, error codes, the two-call
//! buffer protocol, string conversions, calendar arithmetic and the mapping
//! of raw CSP results into typed values.

pub mod raw_types;
pub mod windows_types;
pub mod raw_constants;
pub mod types;
pub mod ffi_helpers;
pub mod text;
pub mod calendar;
pub mod selfsign;
pub mod provider;
pub mod chain;
pub mod asn1;
pub mod pki;
pub mod pfx;
pub mod certificate;
pub mod key;
pub mod msg;
pub mod cert_store;
pub mod sign;
pub mod encrypt;
