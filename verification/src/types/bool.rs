//! The C `BOOL` type (`int`) as a normalized Rust value.
//!
//! C code treats any non-zero `int` as true; this type keeps only 0
//! (FALSE) and 1 (TRUE).
use vstd::prelude::*;
use vstd::std_specs::convert::{FromSpec, FromSpecImpl};
use crate::raw_types as ffi;

verus! {

/// A C `BOOL` whose value is always 0 or 1.
#[derive(Clone, Copy, Debug, PartialEq, Eq, Structural, Hash)]
pub struct BOOL(i32);

impl View for BOOL {
    type V = i32;

    closed spec fn view(&self) -> i32 {
        self.0
    }
}

impl BOOL {
    /// The value is 0 or 1.
    #[verifier::type_invariant]
    spec fn normalized(self) -> bool {
        self.0 == 0 || self.0 == 1
    }

    /// The true value (1).
    #[allow(non_snake_case)]
    pub fn TRUE() -> (b: BOOL)
        ensures
            b@ == 1,
    {
        BOOL(1)
    }

    /// The false value (0).
    #[allow(non_snake_case)]
    pub fn FALSE() -> (b: BOOL)
        ensures
            b@ == 0,
    {
        BOOL(0)
    }

    /// The normalized `BOOL` of a C value: 0 stays FALSE, anything else
    /// becomes TRUE.
    pub open spec fn spec_from_raw(value: i32) -> i32 {
        if value == 0 {
            0
        } else {
            1
        }
    }

    /// A `BOOL` from a C value (normalized: 0 is FALSE, anything else TRUE).
    pub fn from_raw(value: ffi::BOOL) -> (b: Self)
        ensures
            b@ == Self::spec_from_raw(value),
    {
        Self(if value == 0 {
            0
        } else {
            1
        })
    }

    /// The C value (0 or 1).
    pub fn as_raw(self) -> (r: ffi::BOOL)
        ensures
            r == self@,
            r == 0 || r == 1,
    {
        proof {
            use_type_invariant(&self);
        }
        self.0
    }

    /// Whether the value is TRUE.
    pub fn is_true(self) -> (b: bool)
        ensures
            b == (self@ != 0),
    {
        self.0 != 0
    }

    /// Whether the value is FALSE.
    pub fn is_false(self) -> (b: bool)
        ensures
            b == (self@ == 0),
    {
        self.0 == 0
    }

    /// The text of the value: "TRUE" or "FALSE".
    pub fn to_text(self) -> (s: &'static str)
        ensures
            s@ == (if self@ != 0 {
                "TRUE"@
            } else {
                "FALSE"@
            }),
    {
        if self.0 != 0 {
            "TRUE"
        } else {
            "FALSE"
        }
    }
}

impl Default for BOOL {
    fn default() -> (b: Self)
        ensures
            b@ == 0,
    {
        Self::FALSE()
    }
}

impl From<bool> for BOOL {
    fn from(b: bool) -> (r: Self) {
        if b {
            Self::TRUE()
        } else {
            Self::FALSE()
        }
    }
}

impl FromSpecImpl<bool> for BOOL {
    open spec fn obeys_from_spec() -> bool {
        true
    }

    closed spec fn from_spec(b: bool) -> Self {
        if b {
            BOOL(1)
        } else {
            BOOL(0)
        }
    }
}

impl From<BOOL> for bool {
    fn from(b: BOOL) -> (r: Self) {
        b.is_true()
    }
}

impl FromSpecImpl<BOOL> for bool {
    open spec fn obeys_from_spec() -> bool {
        true
    }

    closed spec fn from_spec(b: BOOL) -> Self {
        b.0 != 0
    }
}

impl From<i32> for BOOL {
    fn from(raw: i32) -> (r: Self) {
        Self::from_raw(raw)
    }
}

impl FromSpecImpl<i32> for BOOL {
    open spec fn obeys_from_spec() -> bool {
        true
    }

    closed spec fn from_spec(raw: i32) -> Self {
        BOOL(if raw == 0 {
            0
        } else {
            1
        })
    }
}

impl From<BOOL> for i32 {
    fn from(b: BOOL) -> (r: Self) {
        b.as_raw()
    }
}

impl FromSpecImpl<BOOL> for i32 {
    open spec fn obeys_from_spec() -> bool {
        true
    }

    closed spec fn from_spec(b: BOOL) -> Self {
        b.0
    }
}

/// What the `From` conversions do, in terms of the value.
pub proof fn lemma_bool_from(b: bool, raw: i32, v: BOOL)
    ensures
        <BOOL as FromSpec<bool>>::from_spec(b)@ == (if b {
            1i32
        } else {
            0i32
        }),
        <bool as FromSpec<BOOL>>::from_spec(v) == (v@ != 0),
        <BOOL as FromSpec<i32>>::from_spec(raw)@ == BOOL::spec_from_raw(raw),
        <i32 as FromSpec<BOOL>>::from_spec(v) == v@,
{
}

/// Law: a Rust `bool` survives the trip through `BOOL`.
pub proof fn law_bool_round_trip(b: bool)
    ensures
        <bool as FromSpec<BOOL>>::from_spec(<BOOL as FromSpec<bool>>::from_spec(b)) == b,
{
}

/// Law: normalizing twice is normalizing once, and the truth of a C value
/// is kept.
pub proof fn law_bool_normalization(value: i32)
    ensures
        BOOL::spec_from_raw(BOOL::spec_from_raw(value)) == BOOL::spec_from_raw(value),
        (BOOL::spec_from_raw(value) != 0) == (value != 0),
{
}

} // verus!
