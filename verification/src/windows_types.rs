//! The certificate structures as the Windows headers lay them out, for the
//! Windows build of the CSP: each blob kind is a structure of its own
//! rather than an alias of one blob type.
//!
//! Pointer fields are held as the address they carry (`usize`, 0 for
//! NULL).
#![allow(non_camel_case_types, non_snake_case)]
use vstd::prelude::*;
use crate::raw_types::{BOOL, DWORD};

verus! {

/// An encoded certificate and its parsed information.
#[derive(Debug, Copy, Clone)]
pub struct CERT_CONTEXT {
    pub dwCertEncodingType: DWORD,
    pub pbCertEncoded: usize,
    pub cbCertEncoded: DWORD,
    pub pCertInfo: usize,
    pub hCertStore: usize,
}

/// The fields of a certificate.
#[derive(Debug, Copy, Clone)]
pub struct CERT_INFO {
    pub dwVersion: DWORD,
    pub SerialNumber: CRYPT_INTEGER_BLOB,
    pub SignatureAlgorithm: CRYPT_ALGORITHM_IDENTIFIER,
    pub Issuer: CERT_NAME_BLOB,
    pub NotBefore: FILETIME,
    pub NotAfter: FILETIME,
    pub Subject: CERT_NAME_BLOB,
    pub SubjectPublicKeyInfo: CERT_PUBLIC_KEY_INFO,
    pub IssuerUniqueId: CRYPT_DATA_BLOB,
    pub SubjectUniqueId: CRYPT_DATA_BLOB,
    pub cExtension: DWORD,
    pub rgExtension: usize,
}

/// An algorithm: its OID (C string address) and encoded parameters.
#[derive(Debug, Copy, Clone)]
pub struct CRYPT_ALGORITHM_IDENTIFIER {
    pub pszObjId: usize,
    pub Parameters: CRYPT_OBJID_BLOB,
}

/// A public key and its algorithm.
#[derive(Debug, Copy, Clone)]
pub struct CERT_PUBLIC_KEY_INFO {
    pub Algorithm: CRYPT_ALGORITHM_IDENTIFIER,
    pub PublicKey: CRYPT_DATA_BLOB,
}

/// Encoded parameters of an OID.
#[derive(Debug, Copy, Clone)]
pub struct CRYPT_OBJID_BLOB {
    pub cbData: DWORD,
    pub pbData: usize,
}

/// Arbitrary data.
#[derive(Debug, Copy, Clone)]
pub struct CRYPT_DATA_BLOB {
    pub cbData: DWORD,
    pub pbData: usize,
}

/// An encoded integer (such as a serial number).
#[derive(Debug, Copy, Clone)]
pub struct CRYPT_INTEGER_BLOB {
    pub cbData: DWORD,
    pub pbData: usize,
}

/// An encoded name.
#[derive(Debug, Copy, Clone)]
pub struct CERT_NAME_BLOB {
    pub cbData: DWORD,
    pub pbData: usize,
}

/// A certificate extension.
#[derive(Debug, Copy, Clone)]
pub struct CERT_EXTENSION {
    pub pszObjId: usize,
    pub fCritical: BOOL,
    pub Value: CRYPT_OBJID_BLOB,
}

/// 100-nanosecond intervals since 1 January 1601.
#[derive(Debug, Copy, Clone)]
pub struct FILETIME {
    pub dwLowDateTime: DWORD,
    pub dwHighDateTime: DWORD,
}

} // verus!
