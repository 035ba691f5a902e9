//! Handles of CSP objects (`HCRYPTPROV`, `HCRYPTKEY`, `HCRYPTHASH`).
//!
//! A handle is the raw value the CSP hands out; 0 means no object.
//! Releasing the object behind a handle is a call into the CSP and is
//! left to the code that owns the handle.
use vstd::prelude::*;
use std::marker::PhantomData;

verus! {

/// Handle of a cryptographic provider (`HCRYPTPROV`).
#[derive(Debug)]
pub struct ProvHandle {
    raw: usize,
}

impl View for ProvHandle {
    type V = usize;

    closed spec fn view(&self) -> usize {
        self.raw
    }
}

impl ProvHandle {
    /// Wrap a raw `HCRYPTPROV` obtained from `CryptAcquireContext`.
    pub fn from_raw(raw: usize) -> (h: Self)
        ensures
            h@ == raw,
    {
        Self { raw }
    }

    /// The raw handle.
    pub fn raw(&self) -> (r: usize)
        ensures
            r == self@,
    {
        self.raw
    }

    /// Whether the handle is NULL.
    pub fn is_null(&self) -> (b: bool)
        ensures
            b == (self@ == 0),
    {
        self.raw == 0
    }
}

/// Handle of a cryptographic key (`HCRYPTKEY`).
#[derive(Debug)]
pub struct KeyHandle {
    raw: usize,
}

impl View for KeyHandle {
    type V = usize;

    closed spec fn view(&self) -> usize {
        self.raw
    }
}

impl KeyHandle {
    /// Wrap a raw `HCRYPTKEY`.
    pub fn from_raw(raw: usize) -> (h: Self)
        ensures
            h@ == raw,
    {
        Self { raw }
    }

    /// The raw handle.
    pub fn raw(&self) -> (r: usize)
        ensures
            r == self@,
    {
        self.raw
    }

    /// Whether the handle is NULL.
    pub fn is_null(&self) -> (b: bool)
        ensures
            b == (self@ == 0),
    {
        self.raw == 0
    }
}

/// Handle of a hash object (`HCRYPTHASH`).
#[derive(Debug)]
pub struct HashHandle {
    raw: usize,
}

impl View for HashHandle {
    type V = usize;

    closed spec fn view(&self) -> usize {
        self.raw
    }
}

impl HashHandle {
    /// Wrap a raw `HCRYPTHASH`.
    pub fn from_raw(raw: usize) -> (h: Self)
        ensures
            h@ == raw,
    {
        Self { raw }
    }

    /// The raw handle.
    pub fn raw(&self) -> (r: usize)
        ensures
            r == self@,
    {
        self.raw
    }

    /// Whether the handle is NULL.
    pub fn is_null(&self) -> (b: bool)
        ensures
            b == (self@ == 0),
    {
        self.raw == 0
    }
}

/// A handle whose kind the application decides; nothing is released
/// for it.
#[derive(Debug)]
pub struct Handle<T> {
    raw: usize,
    _marker: PhantomData<T>,
}

impl<T> View for Handle<T> {
    type V = usize;

    closed spec fn view(&self) -> usize {
        self.raw
    }
}

impl<T> Handle<T> {
    /// Wrap a raw handle.
    pub fn from_raw(raw: usize) -> (h: Self)
        ensures
            h@ == raw,
    {
        Self { raw, _marker: PhantomData }
    }

    /// The raw handle.
    pub fn raw(&self) -> (r: usize)
        ensures
            r == self@,
    {
        self.raw
    }

    /// Whether the handle is NULL.
    pub fn is_null(&self) -> (b: bool)
        ensures
            b == (self@ == 0),
    {
        self.raw == 0
    }
}

} // verus!
