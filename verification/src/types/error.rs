//! Error type for CryptoPro CSP operations.
//!
//! Most CSP functions return `BOOL` (FALSE on failure) and leave the error
//! code for `GetLastError()`. `CpcspError` is a raw wrapper over that code.
use vstd::prelude::*;
use vstd::string::StringExecFns;
use crate::text::{hex8_upper, push_hex8_upper};

verus! {

/// Error code of a CryptoPro / Windows API call.
#[derive(Clone, Copy, PartialEq, Eq, Structural, Hash, Debug)]
pub struct CpcspError {
    code: u32,
}

/// Result type for CryptoPro operations.
pub type CpcspResult<T> = Result<T, CpcspError>;

impl View for CpcspError {
    type V = u32;

    open spec fn view(&self) -> u32 {
        self.spec_code()
    }
}

impl CpcspError {
    /// The numeric code held by the error.
    pub closed spec fn spec_code(&self) -> u32 {
        self.code
    }

    /// Create an error from a raw code.
    pub fn from_raw(code: u32) -> (e: Self)
        ensures
            e@ == code,
    {
        Self { code }
    }

    /// The error code.
    pub fn code(self) -> (c: u32)
        ensures
            c == self@,
    {
        self.code
    }

    /// Whether the code is `ERROR_SUCCESS` (0).
    pub fn is_success(self) -> (b: bool)
        ensures
            b == (self@ == 0),
    {
        self.code == 0
    }

    /// A text description of the error: the code in hexadecimal.
    pub fn message(&self) -> (m: Option<String>)
        ensures
            m matches Some(t) && t@ == "CryptoPro error code: 0x"@ + hex8_upper(self@),
    {
        let mut t = String::from_str("CryptoPro error code: 0x");
        push_hex8_upper(&mut t, self.code);
        Some(t)
    }
}

} // verus!

verus! {

/// Run a CSP call that reports success as a non-zero `BOOL`.
///
/// A non-zero result gives `Ok(())`; zero gives the error code that
/// `last_error` (the thread's `GetLastError()`) reports, which is read
/// only on failure.
pub fn check_bool<F: FnOnce() -> i32, E: FnOnce() -> u32>(f: F, last_error: E) -> (r:
    CpcspResult<()>)
    requires
        f.requires(()),
        last_error.requires(()),
    ensures
        r is Ok ==> exists|b: i32| #[trigger] f.ensures((), b) && b != 0,
        r matches Err(e) ==> exists|b: i32, c: u32|
            #![trigger f.ensures((), b), last_error.ensures((), c)]
            f.ensures((), b) && b == 0 && last_error.ensures((), c) && e@ == c,
{
    let result = f();
    if result != 0 {
        Ok(())
    } else {
        let c = last_error();
        Err(CpcspError::from_raw(c))
    }
}

/// Run a CSP call that returns a `BOOL` together with a value.
///
/// A non-zero `BOOL` gives `Ok(value)`; zero gives the code reported by
/// `last_error`.
pub fn check_bool_with<T, F: FnOnce() -> (i32, T), E: FnOnce() -> u32>(f: F, last_error: E) -> (r:
    CpcspResult<T>)
    requires
        f.requires(()),
        last_error.requires(()),
    ensures
        r matches Ok(v) ==> exists|b: i32| #[trigger] f.ensures((), (b, v)) && b != 0,
        r matches Err(e) ==> exists|b: i32, v: T, c: u32|
            #![trigger f.ensures((), (b, v)), last_error.ensures((), c)]
            f.ensures((), (b, v)) && b == 0 && last_error.ensures((), c) && e@ == c,
{
    let out = f();
    let (result, value) = out;
    assert(f.ensures((), (result, value)));
    if result != 0 {
        let r = Ok(value);
        assert(r matches Ok(v) && f.ensures((), (result, v)));
        r
    } else {
        let c = last_error();
        Err(CpcspError::from_raw(c))
    }
}

/// Check a handle or pointer returned by a CSP call that reports failure
/// as NULL: a non-zero value is returned, zero gives the code that
/// `last_error` reports.
pub fn check_handle<E: FnOnce() -> u32>(h: usize, last_error: E) -> (r: CpcspResult<usize>)
    requires
        last_error.requires(()),
    ensures
        h != 0 ==> r == Ok::<usize, CpcspError>(h),
        h == 0 ==> (r matches Err(e) && last_error.ensures((), e@)),
{
    if h == 0 {
        let c = last_error();
        Err(CpcspError::from_raw(c))
    } else {
        Ok(h)
    }
}

} // verus!
