//! The CSP's two-call buffer protocol.
//!
//! A typical CSP function is called first with no output buffer to learn
//! the size it needs, then again with a buffer of that size, and reports in
//! the second call how much of the buffer it filled.
//!
//! The calls themselves are passed in: `get_size` receives the size to
//! start from and returns the call's result and the size it reported;
//! `fill` receives the buffer and its length and returns the result, the
//! buffer and the length it reported; `last_error` reads the thread's
//! last error code.
use vstd::prelude::*;
use crate::types::error::{CpcspError, CpcspResult};

verus! {

/// `n` zero bytes.
pub open spec fn zeroed(n: nat) -> Seq<u8> {
    Seq::new(n, |i: int| 0u8)
}

/// What `Vec::truncate(n)` leaves of `b`: its first `n` bytes, or all of it
/// when it is shorter.
pub open spec fn truncated(b: Seq<u8>, n: int) -> Seq<u8> {
    if n < b.len() {
        b.take(n)
    } else {
        b
    }
}

/// `fill`, handed `s1` zero bytes, succeeded and its output cut to the
/// length it reported is `v`.
pub open spec fn filled_ok<G: FnOnce(Vec<u8>, u32) -> (u32, Vec<u8>, u32)>(
    fill: G,
    s1: u32,
    v: Seq<u8>,
) -> bool {
    exists|b0: Vec<u8>, r2: u32, b2: Vec<u8>, s2: u32|
        #[trigger] fill.ensures((b0, s1), (r2, b2, s2)) && b0@ == zeroed(s1 as nat) && r2 != 0
            && b2@.len() == s1 && v == truncated(b2@, s2 as int)
}

/// `fill` writes into the buffer it is handed: what it hands back has the
/// same length.
pub open spec fn keeps_length<G: FnOnce(Vec<u8>, u32) -> (u32, Vec<u8>, u32)>(fill: G) -> bool {
    forall|b: Vec<u8>, s: u32, r2: u32, b2: Vec<u8>, s2: u32|
        #[trigger] fill.ensures((b, s), (r2, b2, s2)) ==> b2@.len() == b@.len()
}

/// `fill`, handed `s1` zero bytes, failed.
pub open spec fn filled_err<G: FnOnce(Vec<u8>, u32) -> (u32, Vec<u8>, u32)>(
    fill: G,
    s1: u32,
) -> bool {
    exists|b0: Vec<u8>, b2: Vec<u8>, s2: u32|
        #[trigger] fill.ensures((b0, s1), (0u32, b2, s2)) && b0@ == zeroed(s1 as nat)
}

/// What the two-call protocol of `call_with_buffer` gives, starting the
/// size query from `estimate`: the query's error; an empty buffer for a
/// size of zero; the fill's error; or the filled buffer cut to the
/// reported length.
pub open spec fn buffer_reply<
    F: FnOnce(u32) -> (u32, u32),
    G: FnOnce(Vec<u8>, u32) -> (u32, Vec<u8>, u32),
    E: FnOnce() -> u32,
>(get_size: F, fill: G, last_error: E, estimate: u32, r: CpcspResult<Vec<u8>>) -> bool {
    &&& r matches Ok(v) ==> exists|r1: u32, s1: u32|
        #[trigger] get_size.ensures((estimate,), (r1, s1)) && r1 != 0 && (if s1 == 0 {
            v@.len() == 0
        } else {
            filled_ok(fill, s1, v@)
        })
    &&& r matches Err(e) ==> last_error.ensures((), e@) && exists|r1: u32, s1: u32|
        #[trigger] get_size.ensures((estimate,), (r1, s1)) && (r1 == 0 || (s1 != 0 && filled_err(
            fill,
            s1,
        )))
}

/// What the protocol of `call_with_sized_buffer` gives: the size query's
/// error; the fill's error; or the filled buffer cut to the reported
/// length.
pub open spec fn sized_buffer_reply<
    F: FnOnce(u32) -> (u32, u32),
    G: FnOnce(Vec<u8>, u32) -> (u32, Vec<u8>, u32),
    E: FnOnce() -> u32,
>(get_size: F, fill: G, last_error: E, r: CpcspResult<Vec<u8>>) -> bool {
    &&& r matches Ok(v) ==> exists|r1: u32, s1: u32|
        #[trigger] get_size.ensures((0u32,), (r1, s1)) && r1 != 0 && filled_ok(fill, s1, v@)
    &&& r matches Err(e) ==> last_error.ensures((), e@) && exists|r1: u32, s1: u32|
        #[trigger] get_size.ensures((0u32,), (r1, s1)) && (r1 == 0 || filled_err(fill, s1))
}

/// Fill a zeroed buffer of `s1` bytes and cut it to the reported length.
fn fill_buffer<G, E>(s1: u32, fill: G, last_error: E) -> (r: CpcspResult<Vec<u8>>) where
    G: FnOnce(Vec<u8>, u32) -> (u32, Vec<u8>, u32),
    E: FnOnce() -> u32,

    requires
        forall|b: Vec<u8>, s: u32| fill.requires((b, s)),
        keeps_length(fill),
        last_error.requires(()),
    ensures
        r matches Ok(v) ==> filled_ok(fill, s1, v@),
        r matches Err(e) ==> filled_err(fill, s1) && last_error.ensures((), e@),
{
    let buf: Vec<u8> = vec![0u8; s1 as usize];
    assert(buf@ =~= zeroed(s1 as nat));
    let ghost b0 = buf;
    let out = fill(buf, s1);
    let (result, mut filled, size2) = out;
    assert(fill.ensures((b0, s1), (result, filled, size2)));
    if result == 0 {
        let c = last_error();
        return Err(CpcspError::from_raw(c));
    }
    let ghost b2 = filled;
    filled.truncate(size2 as usize);
    assert(filled@ =~= truncated(b2@, size2 as int));
    Ok(filled)
}

/// Call a CSP function twice: once for the size, once to fill the buffer.
///
/// A failing size query gives its error; a size of zero gives an empty
/// buffer without a second call; otherwise a zeroed buffer of that size is
/// filled and cut to the length the second call reports.
pub fn call_with_buffer<F, G, E>(estimate: usize, get_size: F, fill: G, last_error: E) -> (r:
    CpcspResult<Vec<u8>>) where
    F: FnOnce(u32) -> (u32, u32),
    G: FnOnce(Vec<u8>, u32) -> (u32, Vec<u8>, u32),
    E: FnOnce() -> u32,

    requires
        get_size.requires((estimate as u32,)),
        forall|b: Vec<u8>, s: u32| fill.requires((b, s)),
        keeps_length(fill),
        last_error.requires(()),
    ensures
        buffer_reply(get_size, fill, last_error, estimate as u32, r),
{
    let size: u32 = estimate as u32;
    let out = get_size(size);
    let (result, size) = out;
    assert(get_size.ensures((estimate as u32,), (result, size)));
    if result == 0 {
        let c = last_error();
        return Err(CpcspError::from_raw(c));
    }
    if size == 0 {
        return Ok(Vec::new());
    }
    fill_buffer(size, fill, last_error)
}

/// Like `call_with_buffer`, but the size query's own result is not
/// checked: only the size it reports counts.
pub fn get_buffer_no_bool<F, G, E>(estimate: usize, get_size: F, fill: G, last_error: E) -> (r:
    CpcspResult<Vec<u8>>) where
    F: FnOnce(u32) -> (u32, u32),
    G: FnOnce(Vec<u8>, u32) -> (u32, Vec<u8>, u32),
    E: FnOnce() -> u32,

    requires
        get_size.requires((estimate as u32,)),
        forall|b: Vec<u8>, s: u32| fill.requires((b, s)),
        keeps_length(fill),
        last_error.requires(()),
    ensures
        r matches Ok(v) ==> exists|r1: u32, s1: u32|
            #[trigger] get_size.ensures((estimate as u32,), (r1, s1)) && (if s1 == 0 {
                v@.len() == 0
            } else {
                filled_ok(fill, s1, v@)
            }),
        r matches Err(e) ==> last_error.ensures((), e@) && exists|r1: u32, s1: u32|
            #[trigger] get_size.ensures((estimate as u32,), (r1, s1)) && s1 != 0 && filled_err(
                fill,
                s1,
            ),
{
    let size: u32 = estimate as u32;
    let out = get_size(size);
    let (_ignored, size) = out;
    assert(get_size.ensures((estimate as u32,), (_ignored, size)));
    if size == 0 {
        return Ok(Vec::new());
    }
    fill_buffer(size, fill, last_error)
}

/// Call a CSP function twice without a shortcut for an empty result: the
/// size query must succeed, then a zeroed buffer of the reported size
/// (possibly empty) is filled and cut to the length the second call
/// reports.
pub fn call_with_sized_buffer<F, G, E>(get_size: F, fill: G, last_error: E) -> (r: CpcspResult<
    Vec<u8>,
>) where
    F: FnOnce(u32) -> (u32, u32),
    G: FnOnce(Vec<u8>, u32) -> (u32, Vec<u8>, u32),
    E: FnOnce() -> u32,

    requires
        get_size.requires((0u32,)),
        forall|b: Vec<u8>, s: u32| fill.requires((b, s)),
        keeps_length(fill),
        last_error.requires(()),
    ensures
        sized_buffer_reply(get_size, fill, last_error, r),
{
    let out = get_size(0);
    let (result, size) = out;
    assert(get_size.ensures((0u32,), (result, size)));
    if result == 0 {
        let c = last_error();
        return Err(CpcspError::from_raw(c));
    }
    fill_buffer(size, fill, last_error)
}

/// The value of `b0..b3` as a little-endian 32-bit number.
pub open spec fn le_u32(b0: u8, b1: u8, b2: u8, b3: u8) -> int {
    b0 + 0x100 * b1 + 0x10000 * b2 + 0x1000000 * b3
}

/// A `DWORD` parameter (such as `HP_HASHSIZE` or `KP_KEYLEN`) read from
/// its bytes: the first four, little-endian; fewer than four bytes give
/// `ERROR_INVALID_DATA` (here code 1).
pub fn dword_from_param(data: &[u8]) -> (r: CpcspResult<u32>)
    ensures
        r is Ok <==> data@.len() >= 4,
        r matches Ok(v) ==> v == le_u32(data@[0], data@[1], data@[2], data@[3]),
        r matches Err(e) ==> e@ == 1,
{
    if data.len() >= 4 {
        let v: u32 = data[0] as u32 + 0x100 * (data[1] as u32) + 0x10000 * (data[2] as u32)
            + 0x1000000 * (data[3] as u32);
        Ok(v)
    } else {
        Err(CpcspError::from_raw(0x00000001))
    }
}

/// A `DWORD` written little-endian reads back as itself: its four bytes,
/// low byte first, have the value `v`.
pub proof fn law_dword_bytes_round_trip(v: u32)
    ensures
        le_u32(
            (v & 0xff) as u8,
            ((v >> 8) & 0xff) as u8,
            ((v >> 16) & 0xff) as u8,
            ((v >> 24) & 0xff) as u8,
        ) == v,
{
    assert((v & 0xff) as u8 + 0x100 * ((v >> 8) & 0xff) as u8 + 0x10000 * ((v >> 16) & 0xff) as u8
        + 0x1000000 * ((v >> 24) & 0xff) as u8 == v) by (bit_vector);
}

/// The first `n` bytes of `s`, copied.
pub fn copy_prefix(s: &[u8], n: usize) -> (v: Vec<u8>)
    requires
        n <= s@.len(),
    ensures
        v@ == s@.take(n as int),
{
    let mut out: Vec<u8> = Vec::new();
    let mut i: usize = 0;
    while i < n
        invariant
            i <= n <= s@.len(),
            out@ == s@.take(i as int),
        decreases n - i,
    {
        out.push(s[i]);
        assert(out@ =~= s@.take(i + 1));
        i = i + 1;
    }
    out
}

/// All bytes of `s`, copied.
pub fn copy_bytes(s: &[u8]) -> (v: Vec<u8>)
    ensures
        v@ == s@,
{
    let v = copy_prefix(s, s.len());
    assert(s@.take(s@.len() as int) =~= s@);
    v
}

} // verus!
