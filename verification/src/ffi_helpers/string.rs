//! String conversions between Rust and the CSP's C strings.
//!
//! The CSP takes ANSI strings (`LPCSTR`, UTF-8 bytes on Linux) and Unicode
//! strings (`LPCWSTR`, UTF-16 code units), both terminated by a zero.
use vstd::prelude::*;
use vstd::std_specs::iter::IteratorSpec;
use vstd::utf8::{decode_utf8, encode_utf8, valid_utf8};
use zeroize::Zeroizing;
use crate::types::error::{CpcspError, CpcspResult};

verus! {

/// The UTF-16 code units of one character: the character itself below
/// U+10000, a surrogate pair above.
pub open spec fn utf16_units(c: char) -> Seq<u16> {
    let v = c as u32;
    if v < 0x10000 {
        seq![v as u16]
    } else {
        seq![(0xD800 + (v - 0x10000) / 0x400) as u16, (0xDC00 + (v - 0x10000) % 0x400) as u16]
    }
}

/// The UTF-16 encoding of a character sequence.
pub open spec fn encode_utf16(cs: Seq<char>) -> Seq<u16>
    decreases cs.len(),
{
    if cs.len() == 0 {
        seq![]
    } else {
        utf16_units(cs[0]) + encode_utf16(cs.drop_first())
    }
}

/// Encoding one more character appends its code units.
pub proof fn lemma_encode_utf16_push(cs: Seq<char>, c: char)
    ensures
        encode_utf16(cs.push(c)) == encode_utf16(cs) + utf16_units(c),
    decreases cs.len(),
{
    if cs.len() == 0 {
        assert(cs.push(c).drop_first() =~= Seq::<char>::empty());
        assert(encode_utf16(Seq::<char>::empty()) =~= Seq::<u16>::empty());
        assert(encode_utf16(cs) =~= Seq::<u16>::empty());
        assert(cs.push(c)[0] == c);
        assert(encode_utf16(cs.push(c)) =~= utf16_units(c));
    } else {
        assert(cs.push(c).drop_first() =~= cs.drop_first().push(c));
        lemma_encode_utf16_push(cs.drop_first(), c);
        assert(encode_utf16(cs.push(c)) =~= encode_utf16(cs) + utf16_units(c));
    }
}

/// Append the UTF-16 code units of `c` to `out`.
fn push_utf16(out: &mut Vec<u16>, c: char)
    ensures
        final(out)@ == old(out)@ + utf16_units(c),
{
    let v = c as u32;
    if v < 0x10000 {
        out.push(v as u16);
        assert(out@ =~= old(out)@ + utf16_units(c));
    } else {
        let u = v - 0x10000;
        assert(u < 0x100000) by {
            vstd::utf8::char_is_scalar(c);
        }
        out.push((0xD800 + u / 0x400) as u16);
        out.push((0xDC00 + u % 0x400) as u16);
        assert(out@ =~= old(out)@ + utf16_units(c));
    }
}

/// Convert a string into a zero-terminated UTF-16 string (`LPCWSTR`).
pub fn to_wide(s: &str) -> (w: Vec<u16>)
    ensures
        w@ == encode_utf16(s@).push(0u16),
        (forall|i: int| 0 <= i < s@.len() ==> ((#[trigger] s@[i]) as u32) < 0x10000) ==> (w@.len()
            == s@.len() + 1 && w@[s@.len() as int] == 0u16 && forall|i: int|
            0 <= i < s@.len() ==> #[trigger] w@[i] == (s@[i] as u32) as u16),
{
    broadcast use vstd::string::axiom_spec_iter, vstd::string::next_postcondition;

    let mut out: Vec<u16> = Vec::new();
    let mut chars = s.chars();
    let ghost mut seen: Seq<char> = Seq::empty();
    loop
        invariant
            chars.obeys_prophetic_iter_laws(),
            seen + chars.remaining() == s@,
            out@ == encode_utf16(seen),
        ensures
            seen == s@,
            out@ == encode_utf16(seen),
        decreases s@.len() - seen.len(),
    {
        match chars.next() {
            Some(c) => {
                proof {
                    lemma_encode_utf16_push(seen, c);
                    assert(seen.push(c) + chars.remaining() =~= s@);
                    seen = seen.push(c);
                }
                push_utf16(&mut out, c);
            },
            None => {
                assert(seen =~= s@);
                break;
            },
        }
    }
    proof {
        if forall|i: int| 0 <= i < s@.len() ==> ((#[trigger] s@[i]) as u32) < 0x10000 {
            law_encode_utf16_bmp(s@);
        }
    }
    out.push(0u16);
    out
}

} // verus!

verus! {

/// The part of `s` before its first `zero`, or all of `s` when it holds none.
pub open spec fn until_zero<T>(s: Seq<T>, zero: T) -> Seq<T>
    decreases s.len(),
{
    if s.len() == 0 {
        s
    } else if s[0] == zero {
        Seq::empty()
    } else {
        seq![s[0]] + until_zero(s.drop_first(), zero)
    }
}

/// A high (leading) surrogate code unit.
pub open spec fn is_high_surrogate(u: u16) -> bool {
    0xD800 <= u < 0xDC00
}

/// A low (trailing) surrogate code unit.
pub open spec fn is_low_surrogate(u: u16) -> bool {
    0xDC00 <= u < 0xE000
}

/// The code point that a surrogate pair stands for.
pub open spec fn surrogate_pair_value(hi: u16, lo: u16) -> u32 {
    (0x10000 + (hi - 0xD800) * 0x400 + (lo - 0xDC00)) as u32
}

/// Prefix `p` to a decoding result; a failed decoding stays failed.
pub open spec fn prepend_chars(p: Seq<char>, o: Option<Seq<char>>) -> Option<Seq<char>> {
    match o {
        Some(t) => Some(p + t),
        None => None,
    }
}

/// Strict UTF-16 decoding: `None` when an unpaired surrogate occurs.
pub open spec fn decode_utf16(us: Seq<u16>) -> Option<Seq<char>>
    decreases us.len(),
{
    if us.len() == 0 {
        Some(Seq::empty())
    } else if is_high_surrogate(us[0]) {
        if us.len() >= 2 && is_low_surrogate(us[1]) {
            prepend_chars(
                seq![surrogate_pair_value(us[0], us[1]) as char],
                decode_utf16(us.skip(2)),
            )
        } else {
            None
        }
    } else if is_low_surrogate(us[0]) {
        None
    } else {
        prepend_chars(seq![(us[0] as u32) as char], decode_utf16(us.skip(1)))
    }
}

/// Lossy UTF-16 decoding: each unpaired surrogate becomes U+FFFD.
pub open spec fn decode_utf16_lossy(us: Seq<u16>) -> Seq<char>
    decreases us.len(),
{
    if us.len() == 0 {
        Seq::empty()
    } else if is_high_surrogate(us[0]) && us.len() >= 2 && is_low_surrogate(us[1]) {
        seq![surrogate_pair_value(us[0], us[1]) as char] + decode_utf16_lossy(us.skip(2))
    } else if is_high_surrogate(us[0]) || is_low_surrogate(us[0]) {
        seq!['\u{FFFD}'] + decode_utf16_lossy(us.skip(1))
    } else {
        seq![(us[0] as u32) as char] + decode_utf16_lossy(us.skip(1))
    }
}

/// Lossy decoding agrees with strict decoding wherever strict decoding
/// succeeds: U+FFFD only stands for what strict decoding refuses.
pub proof fn law_lossy_agrees_with_strict(us: Seq<u16>)
    ensures
        decode_utf16(us) matches Some(cs) ==> decode_utf16_lossy(us) == cs,
    decreases us.len(),
{
    if us.len() == 0 {
    } else if is_high_surrogate(us[0]) {
        if us.len() >= 2 && is_low_surrogate(us[1]) {
            law_lossy_agrees_with_strict(us.skip(2));
        }
    } else if !is_low_surrogate(us[0]) {
        law_lossy_agrees_with_strict(us.skip(1));
    }
}

/// The index of the first zero in `s[from..]`, or `s.len()`.
fn zero_index_u16(s: &[u16]) -> (n: usize)
    ensures
        n <= s@.len(),
        s@.take(n as int) == until_zero(s@, 0u16),
{
    let mut n: usize = 0;
    assert(s@.skip(0) =~= s@);
    assert(s@.take(0) + until_zero(s@, 0u16) =~= until_zero(s@, 0u16));
    while n < s.len() && s[n] != 0
        invariant
            n <= s@.len(),
            until_zero(s@, 0u16) == s@.take(n as int) + until_zero(s@.skip(n as int), 0u16),
        decreases s@.len() - n,
    {
        proof {
            let rest = s@.skip(n as int);
            assert(rest.drop_first() =~= s@.skip(n + 1));
            assert(s@.take(n + 1) =~= s@.take(n as int) + seq![rest[0]]);
        }
        n = n + 1;
    }
    proof {
        let rest = s@.skip(n as int);
        if n < s@.len() {
            assert(rest[0] == 0u16);
        } else {
            assert(rest.len() == 0);
        }
        assert(until_zero(rest, 0u16) =~= Seq::<u16>::empty());
    }
    n
}

/// The character for a code point that decoding has shown to be valid.
fn scalar_char(v: u32) -> (c: char)
    requires
        v < 0xD800 || (0xE000 <= v <= 0x10FFFF),
    ensures
        c == v as char,
{
    match crate::text::char_from_u32(v) {
        Some(c) => c,
        None => {
            assert(false);
            ' '
        },
    }
}

/// The code point of a surrogate pair, computed.
fn pair_value(hi: u16, lo: u16) -> (v: u32)
    requires
        is_high_surrogate(hi),
        is_low_surrogate(lo),
    ensures
        v == surrogate_pair_value(hi, lo),
        0x10000 <= v <= 0x10FFFF,
{
    0x10000 + (hi as u32 - 0xD800) * 0x400 + (lo as u32 - 0xDC00)
}

/// Strictly decode the UTF-16 units `us[..len]`.
fn decode_strict(us: &[u16], len: usize) -> (r: Option<String>)
    requires
        len <= us@.len(),
    ensures
        r matches Some(t) ==> decode_utf16(us@.take(len as int)) == Some(t@),
        r is None ==> decode_utf16(us@.take(len as int)) is None,
{
    let ghost w = us@.take(len as int);
    let mut out = String::new();
    let mut i: usize = 0;
    assert(w.skip(0) =~= w);
    proof {
        match decode_utf16(w) {
            Some(t) => {
                assert(out@ + t =~= t);
            },
            None => {},
        }
    }
    while i < len
        invariant
            i <= len <= us@.len(),
            w == us@.take(len as int),
            decode_utf16(w) == prepend_chars(out@, decode_utf16(w.skip(i as int))),
        decreases len - i,
    {
        let ghost rest = w.skip(i as int);
        let ghost before = out@;
        let u = us[i];
        assert(rest[0] == u);
        if 0xD800 <= u && u < 0xDC00 {
            if i + 1 < len && 0xDC00 <= us[i + 1] && us[i + 1] < 0xE000 {
                let lo = us[i + 1];
                assert(rest[1] == lo);
                let c = scalar_char(pair_value(u, lo));
                crate::text::string_push(&mut out, c);
                assert(rest.skip(2) =~= w.skip(i + 2));
                assert(before + seq![c] =~= out@);
                proof {
                    let tail = decode_utf16(rest.skip(2));
                    match tail {
                        Some(t) => {
                            assert(before + (seq![c] + t) =~= out@ + t);
                        },
                        None => {},
                    }
                }
                i = i + 2;
            } else {
                return None;
            }
        } else if 0xDC00 <= u && u < 0xE000 {
            return None;
        } else {
            let c = scalar_char(u as u32);
            crate::text::string_push(&mut out, c);
            assert(rest.skip(1) =~= w.skip(i + 1));
            proof {
                let tail = decode_utf16(rest.skip(1));
                match tail {
                    Some(t) => {
                        assert(before + (seq![c] + t) =~= out@ + t);
                    },
                    None => {},
                }
            }
            i = i + 1;
        }
    }
    assert(w.skip(len as int) =~= Seq::<u16>::empty());
    assert(out@ + Seq::<char>::empty() =~= out@);
    Some(out)
}

/// Decode the UTF-16 units `us[..len]`, putting U+FFFD in place of each
/// unpaired surrogate.
fn decode_lossy(us: &[u16], len: usize) -> (r: String)
    requires
        len <= us@.len(),
    ensures
        r@ == decode_utf16_lossy(us@.take(len as int)),
{
    let ghost w = us@.take(len as int);
    let mut out = String::new();
    let mut i: usize = 0;
    assert(w.skip(0) =~= w);
    assert(out@ + decode_utf16_lossy(w) =~= decode_utf16_lossy(w));
    while i < len
        invariant
            i <= len <= us@.len(),
            w == us@.take(len as int),
            decode_utf16_lossy(w) == out@ + decode_utf16_lossy(w.skip(i as int)),
        decreases len - i,
    {
        let ghost rest = w.skip(i as int);
        let ghost before = out@;
        let u = us[i];
        assert(rest[0] == u);
        if 0xD800 <= u && u < 0xDC00 && i + 1 < len && 0xDC00 <= us[i + 1] && us[i + 1] < 0xE000 {
            let lo = us[i + 1];
            assert(rest[1] == lo);
            let c = scalar_char(pair_value(u, lo));
            crate::text::string_push(&mut out, c);
            assert(rest.skip(2) =~= w.skip(i + 2));
            assert(before + (seq![c] + decode_utf16_lossy(rest.skip(2))) =~= out@
                + decode_utf16_lossy(rest.skip(2)));
            i = i + 2;
        } else {
            let c = if 0xD800 <= u && u < 0xE000 {
                '\u{FFFD}'
            } else {
                scalar_char(u as u32)
            };
            crate::text::string_push(&mut out, c);
            assert(rest.skip(1) =~= w.skip(i + 1));
            assert(before + (seq![c] + decode_utf16_lossy(rest.skip(1))) =~= out@
                + decode_utf16_lossy(rest.skip(1)));
            i = i + 1;
        }
    }
    assert(w.skip(len as int) =~= Seq::<u16>::empty());
    assert(out@ + Seq::<char>::empty() =~= out@);
    out
}

/// Convert a zero-terminated UTF-16 string into a `String`.
///
/// The units up to the first zero (all of them when there is none) are
/// decoded; an unpaired surrogate gives `None`.
pub fn from_wide(units: &[u16]) -> (r: Option<String>)
    ensures
        r matches Some(t) ==> decode_utf16(until_zero(units@, 0u16)) == Some(t@),
        r is None ==> decode_utf16(until_zero(units@, 0u16)) is None,
{
    let n = zero_index_u16(units);
    decode_strict(units, n)
}

/// Convert a zero-terminated UTF-16 string into a `String`, replacing each
/// unpaired surrogate with U+FFFD.
pub fn from_wide_lossy(units: &[u16]) -> (r: String)
    ensures
        r@ == decode_utf16_lossy(until_zero(units@, 0u16)),
{
    let n = zero_index_u16(units);
    decode_lossy(units, n)
}

} // verus!

verus! {

/// Convert a string into a zero-terminated ANSI string (`LPCSTR`): its
/// UTF-8 bytes followed by a zero.
pub fn to_ansi(s: &str) -> (a: Vec<u8>)
    ensures
        a@ == encode_utf8(s@).push(0u8),
{
    let b = s.as_bytes();
    let mut out: Vec<u8> = Vec::new();
    let mut i: usize = 0;
    while i < b.len()
        invariant
            i <= b@.len(),
            b@ == encode_utf8(s@),
            out@ == b@.take(i as int),
        decreases b@.len() - i,
    {
        out.push(b[i]);
        assert(out@ =~= b@.take(i + 1));
        i = i + 1;
    }
    assert(out@ =~= b@);
    out.push(0u8);
    out
}

/// The index of the first zero byte of `s`, or `s.len()`.
fn zero_index_u8(s: &[u8]) -> (n: usize)
    ensures
        n <= s@.len(),
        s@.take(n as int) == until_zero(s@, 0u8),
{
    let mut n: usize = 0;
    assert(s@.skip(0) =~= s@);
    assert(s@.take(0) + until_zero(s@, 0u8) =~= until_zero(s@, 0u8));
    while n < s.len() && s[n] != 0
        invariant
            n <= s@.len(),
            until_zero(s@, 0u8) == s@.take(n as int) + until_zero(s@.skip(n as int), 0u8),
        decreases s@.len() - n,
    {
        proof {
            let rest = s@.skip(n as int);
            assert(rest.drop_first() =~= s@.skip(n + 1));
            assert(s@.take(n + 1) =~= s@.take(n as int) + seq![rest[0]]);
        }
        n = n + 1;
    }
    proof {
        let rest = s@.skip(n as int);
        if n < s@.len() {
            assert(rest[0] == 0u8);
        } else {
            assert(rest.len() == 0);
        }
        assert(until_zero(rest, 0u8) =~= Seq::<u8>::empty());
    }
    n
}

/// Convert a zero-terminated ANSI string into a `String`.
///
/// The bytes up to the first zero (all of them when there is none) are
/// taken; they must be valid UTF-8, else the result is `None`.
pub fn from_ansi(bytes: &[u8]) -> (r: Option<String>)
    ensures
        r is Some <==> valid_utf8(until_zero(bytes@, 0u8)),
        r matches Some(t) ==> t@ == decode_utf8(until_zero(bytes@, 0u8)),
{
    let n = zero_index_u8(bytes);
    let prefix = crate::ffi_helpers::buffer::copy_prefix(bytes, n);
    crate::text::string_from_utf8(prefix)
}

} // verus!

verus! {

/// Cutting a zero-free sequence, followed by a zero, at its first zero
/// gives back the sequence.
pub proof fn lemma_until_zero_terminated<T>(s: Seq<T>, zero: T)
    requires
        !s.contains(zero),
    ensures
        until_zero(s.push(zero), zero) == s,
    decreases s.len(),
{
    if s.len() == 0 {
        assert(s.push(zero)[0] == zero);
        assert(s =~= Seq::<T>::empty());
    } else {
        let t = s.push(zero);
        assert(t[0] == s[0]);
        assert(t.drop_first() =~= s.drop_first().push(zero));
        assert(!s.drop_first().contains(zero)) by {
            if s.drop_first().contains(zero) {
                let k = choose|k: int| 0 <= k < s.drop_first().len() && s.drop_first()[k] == zero;
                assert(s[k + 1] == zero);
            }
        }
        lemma_until_zero_terminated(s.drop_first(), zero);
        assert(seq![s[0]] + s.drop_first() =~= s);
    }
}

/// A character other than NUL is not the code 0.
proof fn lemma_char_nonzero(c: char)
    requires
        c != '\0',
    ensures
        c as u32 != 0,
{
    if c as u32 == 0 {
        vstd::utf8::char_u32_cast(c, c as u32);
        assert((0u32 as char) == '\0');
    }
}

/// The UTF-16 encoding of a NUL-free character sequence holds no zero unit.
pub proof fn lemma_encode_utf16_no_zero(cs: Seq<char>)
    requires
        !cs.contains('\0'),
    ensures
        !encode_utf16(cs).contains(0u16),
    decreases cs.len(),
{
    if cs.len() > 0 {
        let c = cs[0];
        let rest = cs.drop_first();
        assert(!rest.contains('\0')) by {
            if rest.contains('\0') {
                let k = choose|k: int| 0 <= k < rest.len() && rest[k] == '\0';
                assert(cs[k + 1] == '\0');
            }
        }
        lemma_encode_utf16_no_zero(rest);
        assert(cs.contains(c));
        lemma_char_nonzero(c);
        let u = utf16_units(c);
        let v = c as u32;
        vstd::utf8::char_is_scalar(c);
        if v < 0x10000 {
            assert(u[0] == v as u16);
            assert(u.len() == 1);
        } else {
            let d = (v - 0x10000) as int;
            assert(d / 0x400 < 0x400);
            assert(d % 0x400 < 0x400);
            assert(u[0] != 0u16);
            assert(u[1] != 0u16);
            assert(u.len() == 2);
        }
        assert(!u.contains(0u16));
        let e = encode_utf16(cs);
        assert(e == u + encode_utf16(rest));
        if e.contains(0u16) {
            let k = choose|k: int| 0 <= k < e.len() && e[k] == 0u16;
            if k < u.len() {
                assert(u[k] == 0u16);
            } else {
                assert(encode_utf16(rest)[k - u.len()] == 0u16);
            }
        }
    }
}

/// Decoding the UTF-16 encoding of a character sequence gives it back.
pub proof fn lemma_decode_encode_utf16(cs: Seq<char>)
    ensures
        decode_utf16(encode_utf16(cs)) == Some(cs),
    decreases cs.len(),
{
    if cs.len() == 0 {
        assert(encode_utf16(cs) =~= Seq::<u16>::empty());
        assert(cs =~= Seq::<char>::empty());
    } else {
        let c = cs[0];
        let rest = cs.drop_first();
        let v = c as u32;
        vstd::utf8::char_is_scalar(c);
        vstd::utf8::char_u32_cast(c, v);
        lemma_decode_encode_utf16(rest);
        let e = encode_utf16(cs);
        let u = utf16_units(c);
        assert(e == u + encode_utf16(rest));
        if v < 0x10000 {
            assert(e[0] == v as u16);
            assert(e.skip(1) =~= encode_utf16(rest));
            assert(((v as u16) as u32) == v);
            assert(seq![c] + rest =~= cs);
        } else {
            let d = (v - 0x10000) as int;
            vstd::arithmetic::div_mod::lemma_fundamental_div_mod(d, 0x400);
            assert(d / 0x400 < 0x400);
            assert(d % 0x400 < 0x400);
            assert(e[0] == (0xD800 + d / 0x400) as u16);
            assert(e[1] == (0xDC00 + d % 0x400) as u16);
            assert(is_high_surrogate(e[0]));
            assert(is_low_surrogate(e[1]));
            assert(surrogate_pair_value(e[0], e[1]) == v);
            assert(e.skip(2) =~= encode_utf16(rest));
            assert(seq![c] + rest =~= cs);
        }
    }
}

/// Law: a NUL-free string survives the trip through a zero-terminated
/// UTF-16 string: `from_wide(&to_wide(s)) == Some(s)`.
pub proof fn law_wide_round_trip(cs: Seq<char>)
    requires
        !cs.contains('\0'),
    ensures
        decode_utf16(until_zero(encode_utf16(cs).push(0u16), 0u16)) == Some(cs),
{
    lemma_encode_utf16_no_zero(cs);
    lemma_until_zero_terminated(encode_utf16(cs), 0u16);
    lemma_decode_encode_utf16(cs);
}

/// A character below U+10000 is one UTF-16 code unit, equal to its code
/// point (and that unit is no surrogate): Cyrillic "п" (U+043F) is 0x043F.
pub proof fn law_utf16_bmp_char(c: char)
    requires
        (c as u32) < 0x10000,
    ensures
        utf16_units(c) == seq![(c as u32) as u16],
        encode_utf16(seq![c]) == seq![(c as u32) as u16],
        ((c as u32) as u16) as u32 == c as u32,
        !(0xD800 <= ((c as u32) as u16) && ((c as u32) as u16) < 0xE000),
{
    vstd::utf8::char_is_scalar(c);
    assert(seq![c].drop_first() =~= Seq::<char>::empty());
    assert(encode_utf16(Seq::<char>::empty()) =~= Seq::<u16>::empty());
    assert(encode_utf16(seq![c]) =~= utf16_units(c));
}

/// A character at or above U+10000 is two UTF-16 code units: a high
/// surrogate `hi` and a low surrogate `lo` with
/// `0x10000 + (hi - 0xD800) * 0x400 + (lo - 0xDC00)` its code point.
pub proof fn law_utf16_supplementary_char(c: char)
    requires
        (c as u32) >= 0x10000,
    ensures
        utf16_units(c).len() == 2,
        0xD800 <= utf16_units(c)[0] < 0xDC00,
        0xDC00 <= utf16_units(c)[1] < 0xE000,
        0x10000 + (utf16_units(c)[0] - 0xD800) * 0x400 + (utf16_units(c)[1] - 0xDC00) == c as u32,
{
    vstd::utf8::char_is_scalar(c);
    let v = c as u32;
    let d = (v - 0x10000) as int;
    vstd::arithmetic::div_mod::lemma_fundamental_div_mod(d, 0x400);
    assert(d / 0x400 < 0x400);
    assert(d % 0x400 < 0x400);
    let u = utf16_units(c);
    assert(u[0] == (0xD800 + d / 0x400) as u16);
    assert(u[1] == (0xDC00 + d % 0x400) as u16);
    assert(u[0] - 0xD800 == d / 0x400);
    assert(u[1] - 0xDC00 == d % 0x400);
}

/// The UTF-16 encoding of two strings one after the other is the encoding
/// of the first followed by that of the second.
pub proof fn law_encode_utf16_concat(a: Seq<char>, b: Seq<char>)
    ensures
        encode_utf16(a + b) == encode_utf16(a) + encode_utf16(b),
    decreases a.len(),
{
    if a.len() == 0 {
        assert(a + b =~= b);
        assert(encode_utf16(a) =~= Seq::<u16>::empty());
        assert(encode_utf16(a) + encode_utf16(b) =~= encode_utf16(b));
    } else {
        assert((a + b)[0] == a[0]);
        assert((a + b).drop_first() =~= a.drop_first() + b);
        law_encode_utf16_concat(a.drop_first(), b);
        assert(encode_utf16(a + b) =~= encode_utf16(a) + encode_utf16(b));
    }
}

/// A string of characters below U+10000 (Cyrillic, Latin, ...) encodes to
/// as many UTF-16 code units as it has characters, each equal to the
/// character's code point: "пароль" is
/// `[0x043F, 0x0430, 0x0440, 0x043E, 0x043B, 0x044C]`.
pub proof fn law_encode_utf16_bmp(cs: Seq<char>)
    requires
        forall|i: int| 0 <= i < cs.len() ==> ((#[trigger] cs[i]) as u32) < 0x10000,
    ensures
        encode_utf16(cs).len() == cs.len(),
        forall|i: int|
            0 <= i < cs.len() ==> #[trigger] encode_utf16(cs)[i] == (cs[i] as u32) as u16,
    decreases cs.len(),
{
    if cs.len() > 0 {
        let rest = cs.drop_first();
        assert forall|i: int| 0 <= i < rest.len() implies ((#[trigger] rest[i]) as u32) < 0x10000 by {
            assert(rest[i] == cs[i + 1]);
        }
        law_encode_utf16_bmp(rest);
        let c = cs[0];
        assert((c as u32) < 0x10000);
        let e = encode_utf16(cs);
        assert(utf16_units(c) == seq![(c as u32) as u16]);
        assert(e == utf16_units(c) + encode_utf16(rest));
        assert forall|i: int| 0 <= i < cs.len() implies #[trigger] e[i] == (cs[i] as u32) as u16 by {
            if i > 0 {
                assert(e[i] == encode_utf16(rest)[i - 1]);
                assert(rest[i - 1] == cs[i]);
            }
        }
    } else {
        assert(encode_utf16(cs) =~= Seq::<u16>::empty());
    }
}

/// One code unit outside the surrogate range decodes, strictly and lossily,
/// to the character with that code point; a lone surrogate (0xD800 to
/// 0xDFFF) is refused by strict decoding and becomes U+FFFD in lossy
/// decoding.
pub proof fn law_utf16_decode_single_unit(u: u16)
    ensures
        !(0xD800 <= u < 0xE000) ==> decode_utf16(seq![u]) == Some(seq![(u as u32) as char]),
        !(0xD800 <= u < 0xE000) ==> decode_utf16_lossy(seq![u]) == seq![(u as u32) as char],
        (0xD800 <= u < 0xE000) ==> decode_utf16(seq![u]) is None,
        (0xD800 <= u < 0xE000) ==> decode_utf16_lossy(seq![u]) == seq!['\u{FFFD}'],
{
    assert(seq![u].skip(1) =~= Seq::<u16>::empty());
    assert(decode_utf16(Seq::<u16>::empty()) == Some(Seq::<char>::empty()));
    assert(decode_utf16_lossy(Seq::<u16>::empty()) =~= Seq::<char>::empty());
    if !(0xD800 <= u < 0xE000) {
        assert(seq![(u as u32) as char] + Seq::<char>::empty() =~= seq![(u as u32) as char]);
    } else {
        assert(seq!['\u{FFFD}'] + Seq::<char>::empty() =~= seq!['\u{FFFD}']);
    }
}

/// A sequence of code units none of which is a surrogate decodes, strictly
/// and lossily, unit by unit: character `i` has code point `us[i]`.
pub proof fn law_utf16_decode_no_surrogates(us: Seq<u16>)
    requires
        forall|i: int| 0 <= i < us.len() ==> !(0xD800 <= (#[trigger] us[i]) && us[i] < 0xE000),
    ensures
        decode_utf16(us) == Some(Seq::new(us.len(), |i: int| (us[i] as u32) as char)),
        decode_utf16_lossy(us) == Seq::new(us.len(), |i: int| (us[i] as u32) as char),
    decreases us.len(),
{
    if us.len() == 0 {
        assert(Seq::new(us.len(), |i: int| (us[i] as u32) as char) =~= Seq::<char>::empty());
    } else {
        let rest = us.skip(1);
        assert forall|i: int| 0 <= i < rest.len() implies !(0xD800 <= (#[trigger] rest[i]) && rest[i]
            < 0xE000) by {
            assert(rest[i] == us[i + 1]);
        }
        law_utf16_decode_no_surrogates(rest);
        assert(!(0xD800 <= us[0] && us[0] < 0xE000));
        let whole = Seq::new(us.len(), |i: int| (us[i] as u32) as char);
        let tail = Seq::new(rest.len(), |i: int| (rest[i] as u32) as char);
        assert(seq![(us[0] as u32) as char] + tail =~= whole);
    }
}

/// A high surrogate followed by a low surrogate decodes to the one
/// character `0x10000 + (hi - 0xD800) * 0x400 + (lo - 0xDC00)`.
pub proof fn law_utf16_decode_pair(hi: u16, lo: u16)
    requires
        0xD800 <= hi < 0xDC00,
        0xDC00 <= lo < 0xE000,
    ensures
        decode_utf16(seq![hi, lo]) == Some(
            seq![((0x10000 + (hi - 0xD800) * 0x400 + (lo - 0xDC00)) as u32) as char],
        ),
        decode_utf16_lossy(seq![hi, lo]) == seq![
            ((0x10000 + (hi - 0xD800) * 0x400 + (lo - 0xDC00)) as u32) as char,
        ],
{
    let us = seq![hi, lo];
    assert(us.skip(2) =~= Seq::<u16>::empty());
    assert(decode_utf16(Seq::<u16>::empty()) == Some(Seq::<char>::empty()));
    assert(decode_utf16_lossy(Seq::<u16>::empty()) =~= Seq::<char>::empty());
    let c = ((0x10000 + (hi - 0xD800) * 0x400 + (lo - 0xDC00)) as u32) as char;
    assert(surrogate_pair_value(hi, lo) as char == c);
    assert(seq![c] + Seq::<char>::empty() =~= seq![c]);
}

/// The UTF-8 encoding of a NUL-free character sequence holds no zero byte.
pub proof fn lemma_encode_utf8_no_zero(cs: Seq<char>)
    requires
        !cs.contains('\0'),
    ensures
        !encode_utf8(cs).contains(0u8),
    decreases cs.len(),
{
    if cs.len() > 0 {
        let c = cs[0];
        let rest = cs.drop_first();
        assert(!rest.contains('\0')) by {
            if rest.contains('\0') {
                let k = choose|k: int| 0 <= k < rest.len() && rest[k] == '\0';
                assert(cs[k + 1] == '\0');
            }
        }
        lemma_encode_utf8_no_zero(rest);
        assert(cs.contains(c));
        lemma_char_nonzero(c);
        let v = c as u32;
        vstd::utf8::char_is_scalar(c);
        let u = vstd::utf8::encode_scalar(v);
        assert(v != 0 && v <= 0x7F ==> (v & 0x7F) as u8 != 0u8) by (bit_vector);
        assert(forall|x: u32| (0xC0u8 | ((x >> 6) & 0x1F) as u8) != 0u8) by (bit_vector);
        assert(forall|x: u32| (0xE0u8 | ((x >> 12) & 0x0F) as u8) != 0u8) by (bit_vector);
        assert(forall|x: u32| (0xF0u8 | ((x >> 18) & 0x7) as u8) != 0u8) by (bit_vector);
        assert(forall|x: u32| (0x80u8 | (x & 0x3F) as u8) != 0u8) by (bit_vector);
        assert(forall|x: u32| (0x80u8 | ((x >> 6) & 0x3F) as u8) != 0u8) by (bit_vector);
        assert(forall|x: u32| (0x80u8 | ((x >> 12) & 0x3F) as u8) != 0u8) by (bit_vector);
        assert(!u.contains(0u8));
        let e = encode_utf8(cs);
        assert(e == u + encode_utf8(rest));
        if e.contains(0u8) {
            let k = choose|k: int| 0 <= k < e.len() && e[k] == 0u8;
            if k < u.len() {
                assert(u[k] == 0u8);
            } else {
                assert(encode_utf8(rest)[k - u.len()] == 0u8);
            }
        }
    }
}

/// Law: a NUL-free string survives the trip through a zero-terminated
/// ANSI string: `from_ansi(&to_ansi(s)) == Some(s)`.
pub proof fn law_ansi_round_trip(cs: Seq<char>)
    requires
        !cs.contains('\0'),
    ensures
        valid_utf8(until_zero(encode_utf8(cs).push(0u8), 0u8)),
        decode_utf8(until_zero(encode_utf8(cs).push(0u8), 0u8)) == cs,
{
    lemma_encode_utf8_no_zero(cs);
    lemma_until_zero_terminated(encode_utf8(cs), 0u8);
    vstd::utf8::encode_utf8_valid_utf8(cs);
    vstd::utf8::encode_utf8_decode_utf8(cs);
}

} // verus!

verus! {

/// A zero-terminated UTF-16 buffer held in `zeroize::Zeroizing`, which
/// wipes it when it is dropped.
#[verifier::external_body]
pub struct SecureWide {
    inner: Zeroizing<Vec<u16>>,
}

/// The code units that a `SecureWide` buffer holds.
pub uninterp spec fn secure_units(z: SecureWide) -> Seq<u16>;

/// `Zeroizing::new`: moves the buffer, unchanged, into the wrapper (the
/// crate's source: `Self(value)`).
#[verifier::external_body]
fn zeroizing_new(v: Vec<u16>) -> (z: SecureWide)
    ensures
        secure_units(z) == v@,
{
    SecureWide { inner: Zeroizing::new(v) }
}

impl SecureWide {
    /// `Zeroizing::deref`: the buffer it holds (the crate's source:
    /// `&self.0`).
    #[verifier::external_body]
    pub fn as_units(&self) -> (r: &Vec<u16>)
        ensures
            r@ == secure_units(*self),
    {
        &*self.inner
    }
}

/// Like `to_wide`, for passwords and other secrets: the buffer is wiped
/// when it is dropped. The caller's `&str` is left as it is.
pub fn to_wide_secure(s: &str) -> (z: SecureWide)
    ensures
        secure_units(z) == encode_utf16(s@).push(0u16),
{
    zeroizing_new(to_wide(s))
}

} // verus!

verus! {

/// A NUL character encodes as a zero byte.
pub proof fn lemma_encode_utf8_nul_byte(cs: Seq<char>)
    requires
        cs.contains('\0'),
    ensures
        encode_utf8(cs).contains(0u8),
    decreases cs.len(),
{
    let rest = cs.drop_first();
    let e = encode_utf8(cs);
    let u = vstd::utf8::encode_scalar(cs[0] as u32);
    assert(e == u + encode_utf8(rest));
    if cs[0] == '\0' {
        assert(('\0' as u32) == 0u32);
        assert((0u32 & 0x7F) as u8 == 0u8) by (bit_vector);
        assert(e[0] == 0u8);
    } else {
        let k = choose|k: int| 0 <= k < cs.len() && cs[k] == '\0';
        assert(rest[k - 1] == '\0');
        lemma_encode_utf8_nul_byte(rest);
        let j = choose|j: int| 0 <= j < encode_utf8(rest).len() && encode_utf8(rest)[j] == 0u8;
        assert(e[u.len() + j] == 0u8);
    }
}

/// The C string handed to a CSP call for `text`: its UTF-8 bytes and a
/// terminating zero.
pub open spec fn c_string_of(text: Seq<char>) -> Seq<u8> {
    encode_utf8(text).push(0u8)
}

/// `CString::new` as the CSP calls use it: the string's UTF-8 bytes and a
/// terminating zero, or `ERROR_INVALID_PARAMETER` (0x57) when the string
/// holds a NUL character.
pub fn to_c_string(s: &str) -> (r: CpcspResult<Vec<u8>>)
    ensures
        r is Err <==> s@.contains('\0'),
        r matches Ok(v) ==> v@ == c_string_of(s@),
        r matches Err(e) ==> e@ == 0x57,
{
    let b = s.as_bytes();
    let mut i: usize = 0;
    while i < b.len()
        invariant
            i <= b@.len(),
            b@ == encode_utf8(s@),
            forall|j: int| 0 <= j < i ==> b@[j] != 0u8,
        decreases b@.len() - i,
    {
        if b[i] == 0 {
            proof {
                if !s@.contains('\0') {
                    lemma_encode_utf8_no_zero(s@);
                    assert(b@.contains(0u8));
                }
            }
            return Err(CpcspError::from_raw(0x57));
        }
        i = i + 1;
    }
    proof {
        if s@.contains('\0') {
            lemma_encode_utf8_nul_byte(s@);
            let j = choose|j: int| 0 <= j < b@.len() && b@[j] == 0u8;
            assert(b@[j] != 0u8);
        }
    }
    Ok(to_ansi(s))
}

} // verus!
