//! Small text primitives shared by the library: hexadecimal digits and
//! the one std string call that vstd leaves without a contract.
use vstd::prelude::*;

verus! {

/// The upper-case hexadecimal digit for a value below 16.
pub open spec fn hex_digit_upper(n: u32) -> char {
    if n < 10 {
        ((n + 48) as u8) as char
    } else {
        ((n + 55) as u8) as char
    }
}

/// Nibble `i` (0 = most significant) of a 32-bit value.
pub open spec fn nibble(code: u32, i: int) -> u32 {
    (code >> ((28 - 4 * i) as u32)) & 0xF
}

/// The eight upper-case hexadecimal digits of a 32-bit value, most
/// significant first (the `{:08X}` rendering).
pub open spec fn hex8_upper(code: u32) -> Seq<char> {
    Seq::new(8, |i: int| hex_digit_upper(nibble(code, i)))
}

/// `String::push`: appends one character at the end of the string.
#[verifier::external_body]
pub(crate) fn string_push(s: &mut String, c: char)
    ensures
        final(s)@ == old(s)@.push(c),
{
    s.push(c)
}

/// Executable counterpart of `hex_digit_upper`.
pub fn hex_digit_char(n: u32) -> (c: char)
    requires
        n < 16,
    ensures
        c == hex_digit_upper(n),
{
    if n < 10 {
        ((n + 48) as u8) as char
    } else {
        ((n + 55) as u8) as char
    }
}

/// Append the `{:08X}` rendering of `code` to `s`.
pub fn push_hex8_upper(s: &mut String, code: u32)
    ensures
        final(s)@ == old(s)@ + hex8_upper(code),
{
    let ghost start = s@;
    let mut i: u32 = 0;
    while i < 8
        invariant
            i <= 8,
            s@ == start + hex8_upper(code).take(i as int),
        decreases 8 - i,
    {
        let shift: u32 = 28 - 4 * i;
        let nib: u32 = (code >> shift) & 0xF;
        assert(nib < 16) by (bit_vector)
            requires
                nib == (code >> shift) & 0xF,
        ;
        assert(nib == nibble(code, i as int));
        let c = hex_digit_char(nib);
        string_push(s, c);
        assert(hex8_upper(code).take(i + 1) =~= hex8_upper(code).take(i as int).push(c));
        i = i + 1;
    }
    assert(hex8_upper(code).take(8) =~= hex8_upper(code));
}

/// The value of a hexadecimal digit character ('0'..'9', 'A'..'F').
pub open spec fn hex_digit_value(c: char) -> int {
    if (c as u32) <= 57 {
        c as u32 - 48
    } else {
        c as u32 - 55
    }
}

/// Whether `c` is one of '0'..'9' or 'A'..'F'.
pub open spec fn is_upper_hex_digit(c: char) -> bool {
    (48 <= (c as u32) && (c as u32) <= 57) || (65 <= (c as u32) && (c as u32) <= 70)
}

proof fn lemma_hex_digit_read_back(n: u32)
    requires
        n < 16,
    ensures
        is_upper_hex_digit(hex_digit_upper(n)),
        hex_digit_value(hex_digit_upper(n)) == n,
{
}

/// The `{:08X}` rendering is eight upper-case hexadecimal digits that,
/// read back most significant first, give the value: 0x80092013 renders
/// as "80092013", 0x1F as "0000001F".
pub proof fn law_hex8_upper_value(code: u32)
    ensures
        hex8_upper(code).len() == 8,
        forall|i: int| 0 <= i < 8 ==> is_upper_hex_digit(#[trigger] hex8_upper(code)[i]),
        hex_digit_value(hex8_upper(code)[0]) * 0x10000000 + hex_digit_value(hex8_upper(code)[1])
            * 0x1000000 + hex_digit_value(hex8_upper(code)[2]) * 0x100000 + hex_digit_value(
            hex8_upper(code)[3],
        ) * 0x10000 + hex_digit_value(hex8_upper(code)[4]) * 0x1000 + hex_digit_value(
            hex8_upper(code)[5],
        ) * 0x100 + hex_digit_value(hex8_upper(code)[6]) * 0x10 + hex_digit_value(
            hex8_upper(code)[7],
        ) == code,
{
    let h = hex8_upper(code);
    assert forall|i: int| 0 <= i < 8 implies nibble(code, i) < 16 by {
        let k: u32 = (28 - 4 * i) as u32;
        assert((code >> k) & 0xF < 16) by (bit_vector);
    }
    assert forall|i: int| 0 <= i < 8 implies is_upper_hex_digit(#[trigger] h[i])
        && hex_digit_value(h[i]) == nibble(code, i) by {
        lemma_hex_digit_read_back(nibble(code, i));
    }
    assert(h[0] == hex_digit_upper(nibble(code, 0)));
    assert(h[1] == hex_digit_upper(nibble(code, 1)));
    assert(h[2] == hex_digit_upper(nibble(code, 2)));
    assert(h[3] == hex_digit_upper(nibble(code, 3)));
    assert(h[4] == hex_digit_upper(nibble(code, 4)));
    assert(h[5] == hex_digit_upper(nibble(code, 5)));
    assert(h[6] == hex_digit_upper(nibble(code, 6)));
    assert(h[7] == hex_digit_upper(nibble(code, 7)));
    assert(nibble(code, 0) == (code >> 28u32) & 0xF);
    assert(nibble(code, 1) == (code >> 24u32) & 0xF);
    assert(nibble(code, 2) == (code >> 20u32) & 0xF);
    assert(nibble(code, 3) == (code >> 16u32) & 0xF);
    assert(nibble(code, 4) == (code >> 12u32) & 0xF);
    assert(nibble(code, 5) == (code >> 8u32) & 0xF);
    assert(nibble(code, 6) == (code >> 4u32) & 0xF);
    assert(nibble(code, 7) == (code >> 0u32) & 0xF);
    assert(((code >> 28u32) & 0xF) * 0x10000000 + ((code >> 24u32) & 0xF) * 0x1000000 + ((code
        >> 20u32) & 0xF) * 0x100000 + ((code >> 16u32) & 0xF) * 0x10000 + ((code >> 12u32) & 0xF)
        * 0x1000 + ((code >> 8u32) & 0xF) * 0x100 + ((code >> 4u32) & 0xF) * 0x10 + ((code
        >> 0u32) & 0xF) == code) by (bit_vector);
}

} // verus!

verus! {

/// `char::from_u32`: the character with the given code, or `None` when
/// the code is not a Unicode scalar value (above U+10FFFF or a
/// surrogate).
#[verifier::external_body]
pub(crate) fn char_from_u32(v: u32) -> (r: Option<char>)
    ensures
        r == (if vstd::utf8::is_scalar(v) {
            Some(v as char)
        } else {
            None
        }),
{
    char::from_u32(v)
}

} // verus!

verus! {

/// `String::from_utf8`: the bytes as a `String` when they are valid UTF-8,
/// and an error (here `None`) otherwise.
#[verifier::external_body]
pub(crate) fn string_from_utf8(v: Vec<u8>) -> (r: Option<String>)
    ensures
        r is Some <==> vstd::utf8::valid_utf8(v@),
        r matches Some(s) ==> s@ == vstd::utf8::decode_utf8(v@),
{
    String::from_utf8(v).ok()
}

} // verus!

verus! {

/// What `String::from_utf8_lossy` makes of a byte string: each maximal
/// invalid sequence replaced by U+FFFD.
pub uninterp spec fn utf8_lossy(b: Seq<u8>) -> Seq<char>;

/// `String::from_utf8_lossy`, made an owned `String`. Its documentation:
/// valid UTF-8 is decoded as it is; other input has its invalid sequences
/// replaced by U+FFFD, and the result depends on the bytes alone.
#[verifier::external_body]
pub(crate) fn string_from_utf8_lossy(v: &[u8]) -> (r: String)
    ensures
        r@ == utf8_lossy(v@),
        vstd::utf8::valid_utf8(v@) ==> r@ == vstd::utf8::decode_utf8(v@),
{
    String::from_utf8_lossy(v).into_owned()
}

} // verus!

verus! {

/// The decimal digit for a value below 10.
pub open spec fn decimal_digit(n: nat) -> char {
    ((n + 48) as u8) as char
}

/// The decimal rendering of a natural number (no leading zeros).
pub open spec fn decimal(n: nat) -> Seq<char>
    decreases n,
{
    if n < 10 {
        seq![decimal_digit(n)]
    } else {
        decimal(n / 10).push(decimal_digit(n % 10))
    }
}

/// The decimal rendering of a signed number (`{}` of an integer).
pub open spec fn decimal_signed(v: int) -> Seq<char> {
    if v < 0 {
        seq!['-'] + decimal((-v) as nat)
    } else {
        decimal(v as nat)
    }
}

/// The upper-case hexadecimal rendering of a natural number, without
/// leading zeros (the `{:X}` rendering).
pub open spec fn hex_upper(n: nat) -> Seq<char>
    decreases n,
{
    if n < 16 {
        seq![hex_digit_upper(n as u32)]
    } else {
        hex_upper(n / 16).push(hex_digit_upper((n % 16) as u32))
    }
}

/// Append the `{:X}` rendering of `n` to `s`.
pub fn push_hex_upper(s: &mut String, n: usize)
    ensures
        final(s)@ == old(s)@ + hex_upper(n as nat),
    decreases n,
{
    if n >= 16 {
        push_hex_upper(s, n / 16);
    }
    let d: u32 = (n % 16) as u32;
    let c = hex_digit_char(d);
    string_push(s, c);
    assert(old(s)@ + hex_upper(n as nat) =~= final(s)@) by {
        if n >= 16 {
            assert(hex_upper(n as nat) == hex_upper((n / 16) as nat).push(
                hex_digit_upper(((n as nat) % 16) as u32),
            ));
        }
    }
}

/// Append the decimal rendering of `n` to `s`.
pub fn push_decimal_u32(s: &mut String, n: u32)
    ensures
        final(s)@ == old(s)@ + decimal(n as nat),
    decreases n,
{
    if n >= 10 {
        push_decimal_u32(s, n / 10);
    }
    let c = ((n % 10 + 48) as u8) as char;
    string_push(s, c);
    assert(old(s)@ + decimal(n as nat) =~= final(s)@) by {
        if n >= 10 {
            assert(decimal(n as nat) == decimal((n / 10) as nat).push(decimal_digit((n % 10) as nat)));
        }
    }
}

/// Append the decimal rendering of `v` to `s`.
pub fn push_decimal_i32(s: &mut String, v: i32)
    ensures
        final(s)@ == old(s)@ + decimal_signed(v as int),
{
    if v < 0 {
        string_push(s, '-');
        let m: u32 = (-(v as i64)) as u32;
        push_decimal_u32(s, m);
        assert(final(s)@ =~= old(s)@ + decimal_signed(v as int));
    } else {
        push_decimal_u32(s, v as u32);
    }
}

/// The number that a string of decimal digits reads as, most
/// significant digit first.
pub open spec fn decimal_value(ds: Seq<char>) -> int
    decreases ds.len(),
{
    if ds.len() == 0 {
        0
    } else {
        decimal_value(ds.drop_last()) * 10 + (ds.last() as u32 - 48)
    }
}

/// The decimal rendering of `n` is a string of digits '0'..'9' that reads
/// back as `n`, with no leading zero (only 0 itself starts with '0').
pub proof fn law_decimal_value(n: nat)
    ensures
        decimal(n).len() >= 1,
        forall|i: int|
            0 <= i < decimal(n).len() ==> 48 <= (#[trigger] decimal(n)[i] as u32) <= 57,
        decimal_value(decimal(n)) == n,
        n > 0 ==> decimal(n)[0] != '0',
    decreases n,
{
    if n >= 10 {
        let q = n / 10;
        let r = n % 10;
        vstd::arithmetic::div_mod::lemma_fundamental_div_mod(n as int, 10);
        law_decimal_value(q);
        let d = decimal(n);
        assert(d == decimal(q).push(decimal_digit(r)));
        assert(d.drop_last() =~= decimal(q));
        assert(d.last() == decimal_digit(r));
        assert((decimal_digit(r) as u32) == r + 48);
        assert forall|i: int| 0 <= i < d.len() implies 48 <= (#[trigger] d[i] as u32) <= 57 by {
            if i < d.len() - 1 {
                assert(d[i] == decimal(q)[i]);
            }
        }
        assert(d[0] == decimal(q)[0]);
        assert(decimal_value(d) == decimal_value(decimal(q)) * 10 + r);
        assert(q * 10 + r == n) by (nonlinear_arith)
            requires
                n == 10 * q + r,
        ;
    } else {
        let d = decimal(n);
        assert(d == seq![decimal_digit(n)]);
        assert(d.drop_last() =~= Seq::<char>::empty());
        assert((decimal_digit(n) as u32) == n + 48);
        assert(decimal_value(d) == decimal_value(d.drop_last()) * 10 + (d.last() as u32 - 48));
    }
}

} // verus!
