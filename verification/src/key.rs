//! Symmetric encryption with a key (`CryptEncrypt`).
//!
//! `CryptEncrypt` is called twice: once to learn the size the ciphertext
//! needs (padding included), then on a buffer of that size holding the
//! plaintext. The calls are passed in as closures that receive every
//! argument this module decides.
use vstd::prelude::*;
use crate::ffi_helpers::buffer::{truncated, zeroed};
use crate::raw_types::{win_bool, BOOL, FALSE, TRUE};
use crate::types::error::{CpcspError, CpcspResult};

verus! {

/// The plaintext `data` at the start of `size` bytes, the rest zero.
pub open spec fn plaintext_buffer(data: Seq<u8>, size: nat) -> Seq<u8> {
    data + zeroed((size - data.len()) as nat)
}

/// A zeroed buffer of `size` bytes with `data` copied to its start.
pub fn plaintext_in_buffer(data: &[u8], size: u32) -> (buf: Vec<u8>)
    requires
        data@.len() <= size,
    ensures
        buf@ == plaintext_buffer(data@, size as nat),
{
    let mut buf: Vec<u8> = Vec::new();
    let mut i: usize = 0;
    while i < data.len()
        invariant
            i <= data@.len() <= size,
            buf@ == data@.take(i as int),
        decreases data@.len() - i,
    {
        buf.push(data[i]);
        assert(buf@ =~= data@.take(i + 1));
        i = i + 1;
    }
    let mut j: u32 = data.len() as u32;
    while j < size
        invariant
            data@.len() <= j <= size,
            buf@ == data@ + zeroed((j - data@.len()) as nat),
        decreases size - j,
    {
        buf.push(0u8);
        assert(buf@ =~= data@ + zeroed((j + 1 - data@.len()) as nat));
        j = j + 1;
    }
    assert(data@.take(data@.len() as int) =~= data@);
    buf
}

/// The calls `encrypt` makes, as its closures state them.
pub open spec fn encrypt_calls_ok<
    Q: FnOnce(BOOL, u32) -> (BOOL, u32),
    G: FnOnce(BOOL, Vec<u8>, u32, u32) -> (BOOL, Vec<u8>, u32),
    E: FnOnce() -> u32,
>(data: Seq<u8>, final_block: bool, query: Q, fill: G, last_error: E) -> bool {
    &&& query.requires((win_bool(final_block), data.len() as u32))
    &&& forall|b: Vec<u8>, n: u32, s: u32| fill.requires((win_bool(final_block), b, n, s))
    &&& forall|b: Vec<u8>, n: u32, s: u32, r2: BOOL, b2: Vec<u8>, s2: u32|
        #[trigger] fill.ensures((win_bool(final_block), b, n, s), (r2, b2, s2)) ==> b2@.len()
            == b@.len()
    &&& last_error.requires(())
    &&& forall|r1: BOOL, s1: u32|
        #[trigger] query.ensures((win_bool(final_block), data.len() as u32), (r1, s1)) && r1 != 0
            ==> data.len() <= s1
}

/// Encrypt `data` with `CryptEncrypt`. `query(final, data_len)` asks for
/// the ciphertext size; `fill(final, buffer, data_len, buffer_len)`
/// encrypts the plaintext held at the start of a zeroed buffer of that
/// size and returns the result, the buffer and the ciphertext length,
/// which the buffer is cut to. `final` is `TRUE` for the last block.
/// A failed call gives the code from `last_error`.
pub fn encrypt<Q, G, E>(data: &[u8], final_block: bool, query: Q, fill: G, last_error: E) -> (r:
    CpcspResult<Vec<u8>>) where
    Q: FnOnce(BOOL, u32) -> (BOOL, u32),
    G: FnOnce(BOOL, Vec<u8>, u32, u32) -> (BOOL, Vec<u8>, u32),
    E: FnOnce() -> u32,

    requires
        data@.len() <= u32::MAX,
        encrypt_calls_ok(data@, final_block, query, fill, last_error),
    ensures
        exists|r1: BOOL, s1: u32|
            #[trigger] query.ensures((win_bool(final_block), data@.len() as u32), (r1, s1)) && (if r1
                == 0 {
                r matches Err(e) && last_error.ensures((), e@)
            } else {
                exists|b0: Vec<u8>, r2: BOOL, b2: Vec<u8>, s2: u32|
                    #[trigger] fill.ensures(
                        (win_bool(final_block), b0, data@.len() as u32, s1),
                        (r2, b2, s2),
                    ) && b0@ == plaintext_buffer(data@, s1 as nat) && (if r2 == 0 {
                        r matches Err(e) && last_error.ensures((), e@)
                    } else {
                        r matches Ok(v) && v@ == truncated(b2@, s2 as int)
                    })
            }),
{
    let flag: BOOL = if final_block {
        TRUE
    } else {
        FALSE
    };
    assert(flag == win_bool(final_block));
    let n = data.len() as u32;
    let out = query(flag, n);
    let (r1, s1) = out;
    assert(query.ensures((flag, n), (r1, s1)));
    if r1 == 0 {
        let c = last_error();
        return Err(CpcspError::from_raw(c));
    }
    let buf = plaintext_in_buffer(data, s1);
    let ghost b0 = buf;
    let out2 = fill(flag, buf, n, s1);
    let (r2, b2, s2) = out2;
    assert(fill.ensures((flag, b0, n, s1), (r2, b2, s2)));
    if r2 == 0 {
        let c = last_error();
        return Err(CpcspError::from_raw(c));
    }
    let mut cipher = b2;
    cipher.truncate(s2 as usize);
    assert(cipher@ =~= truncated(b2@, s2 as int));
    Ok(cipher)
}

} // verus!
