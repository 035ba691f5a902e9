//! Signing and verifying CMS messages (`CryptSignMessage`,
//! `CryptVerifyMessageSignature`).
//!
//! The calls are passed in as closures that receive every argument this
//! module decides: the signers (certificate, key type, hash OID's C
//! string), the detached flag, the buffers and their sizes.
use vstd::prelude::*;
use crate::ffi_helpers::buffer::{truncated, zeroed};
use crate::ffi_helpers::string::{c_string_of, to_c_string};
use crate::raw_types::{win_bool, BOOL, DWORD, FALSE, TRUE};
use crate::types::error::{CpcspError, CpcspResult};

verus! {

/// A signer: its certificate context, key type and hash OID.
#[derive(Debug, Clone, Copy)]
pub struct Signer<'a> {
    /// The signer's certificate context.
    pub cert: usize,
    /// The key type (`AT_KEYEXCHANGE` or `AT_SIGNATURE`).
    pub key_spec: DWORD,
    /// The OID of the hash algorithm.
    pub hash_oid: &'a str,
}

impl<'a> Signer<'a> {
    /// A signer.
    pub fn new(cert: usize, key_spec: DWORD, hash_oid: &'a str) -> (s: Self)
        ensures
            s.cert == cert,
            s.key_spec == key_spec,
            s.hash_oid == hash_oid,
    {
        Signer { cert, key_spec, hash_oid }
    }
}

/// What the signing calls receive for one signer: its certificate
/// context, key type and the C string of its hash OID.
#[derive(Debug)]
pub struct SignerParams {
    /// The signer's certificate context.
    pub cert: usize,
    /// The key type.
    pub key_spec: DWORD,
    /// The hash OID's C string.
    pub hash_oid: Vec<u8>,
}

/// `ps` hands every signer of `signers` to the calls, in order.
pub open spec fn params_of(signers: Seq<Signer>, ps: Seq<SignerParams>) -> bool {
    &&& ps.len() == signers.len()
    &&& forall|i: int|
        0 <= i < ps.len() ==> (#[trigger] ps[i]).cert == signers[i].cert && ps[i].key_spec
            == signers[i].key_spec && ps[i].hash_oid@ == c_string_of(signers[i].hash_oid@)
}

/// Some signer's hash OID holds a zero character.
pub open spec fn some_oid_has_nul(signers: Seq<Signer>) -> bool {
    exists|i: int| 0 <= i < signers.len() && (#[trigger] signers[i]).hash_oid@.contains('\0')
}

/// What signing gives once the signers' parameters `ps` and the detached
/// flag `flag` are fixed: the size query's error; an empty message for a
/// size of zero; the second call's error; or its output cut to the
/// reported length.
pub open spec fn signed_reply<
    Q: FnOnce(&Vec<SignerParams>, BOOL, u32) -> (BOOL, u32),
    G: FnOnce(&Vec<SignerParams>, BOOL, Vec<u8>, u32) -> (BOOL, Vec<u8>, u32),
    E: FnOnce() -> u32,
>(query: Q, fill: G, last_error: E, ps: Vec<SignerParams>, flag: BOOL, r: CpcspResult<Vec<u8>>) -> bool {
    exists|r1: BOOL, s1: u32|
        #[trigger] query.ensures((&ps, flag, 0u32), (r1, s1)) && (if r1 == 0 {
            r matches Err(e) && last_error.ensures((), e@)
        } else if s1 == 0 {
            r matches Ok(v) && v@.len() == 0
        } else {
            exists|b0: Vec<u8>, r2: BOOL, b2: Vec<u8>, s2: u32|
                #[trigger] fill.ensures((&ps, flag, b0, s1), (r2, b2, s2)) && b0@ == zeroed(
                    s1 as nat,
                ) && (if r2 == 0 {
                    r matches Err(e) && last_error.ensures((), e@)
                } else {
                    r matches Ok(v) && v@ == truncated(b2@, s2 as int)
                })
        })
}

/// Sign `data` for every signer of the list, one signature each.
/// `query(signers, detached, 0)` asks for the size of the signed message
/// and `fill(signers, detached, buffer, size)` writes it; both receive
/// every signer, in order, with its certificate, key type and hash OID as
/// a C string. `detached` is `TRUE` for a detached signature.
///
/// An empty list, or a hash OID holding a zero character, gives
/// `ERROR_INVALID_PARAMETER` (0x57) without a call.
pub fn sign_message<Q, G, E>(
    signers: &[Signer],
    detached: bool,
    query: Q,
    fill: G,
    last_error: E,
) -> (r: CpcspResult<Vec<u8>>) where
    Q: FnOnce(&Vec<SignerParams>, BOOL, u32) -> (BOOL, u32),
    G: FnOnce(&Vec<SignerParams>, BOOL, Vec<u8>, u32) -> (BOOL, Vec<u8>, u32),
    E: FnOnce() -> u32,

    requires
        forall|ps: &Vec<SignerParams>| query.requires((ps, win_bool(detached), 0u32)),
        forall|ps: &Vec<SignerParams>, b: Vec<u8>, s: u32|
            fill.requires((ps, win_bool(detached), b, s)),
        forall|ps: &Vec<SignerParams>, b: Vec<u8>, s: u32, r2: BOOL, b2: Vec<u8>, s2: u32|
            #[trigger] fill.ensures((ps, win_bool(detached), b, s), (r2, b2, s2)) ==> b2@.len()
                == b@.len(),
        last_error.requires(()),
    ensures
        signers@.len() == 0 || some_oid_has_nul(signers@) ==> (r matches Err(e) && e@ == 0x57),
        signers@.len() > 0 && !some_oid_has_nul(signers@) ==> exists|ps: Vec<SignerParams>|
            params_of(signers@, ps@) && #[trigger] signed_reply(
                query,
                fill,
                last_error,
                ps,
                win_bool(detached),
                r,
            ),
{
    if signers.len() == 0 {
        return Err(CpcspError::from_raw(0x57));
    }
    let mut ps: Vec<SignerParams> = Vec::new();
    let mut i: usize = 0;
    while i < signers.len()
        invariant
            i <= signers@.len(),
            params_of(signers@.take(i as int), ps@),
            !some_oid_has_nul(signers@.take(i as int)),
        decreases signers@.len() - i,
    {
        let sg = signers[i];
        let c = match to_c_string(sg.hash_oid) {
            Ok(c) => c,
            Err(e) => {
                assert(signers@[i as int].hash_oid@.contains('\0'));
                assert(some_oid_has_nul(signers@));
                return Err(e);
            },
        };
        let ghost before = ps@;
        ps.push(SignerParams { cert: sg.cert, key_spec: sg.key_spec, hash_oid: c });
        proof {
            let t = signers@.take(i + 1);
            assert(t =~= signers@.take(i as int).push(signers@[i as int]));
            assert forall|j: int| 0 <= j < ps@.len() implies (#[trigger] ps@[j]).cert == t[j].cert
                && ps@[j].key_spec == t[j].key_spec && ps@[j].hash_oid@ == c_string_of(
                t[j].hash_oid@,
            ) by {
                if j < i {
                    assert(ps@[j] == before[j]);
                    assert(t[j] == signers@.take(i as int)[j]);
                }
            }
            assert(!some_oid_has_nul(t)) by {
                if some_oid_has_nul(t) {
                    let k = choose|k: int| 0 <= k < t.len() && (#[trigger] t[k]).hash_oid@.contains('\0');
                    if k < i {
                        assert(signers@.take(i as int)[k] == t[k]);
                    }
                }
            }
        }
        i = i + 1;
    }
    assert(signers@.take(signers@.len() as int) =~= signers@);
    let flag: BOOL = if detached {
        TRUE
    } else {
        FALSE
    };
    assert(flag == win_bool(detached));
    let out = query(&ps, flag, 0);
    let (r1, s1) = out;
    assert(query.ensures((&ps, flag, 0u32), (r1, s1)));
    if r1 == 0 {
        let code = last_error();
        let r = Err(CpcspError::from_raw(code));
        assert(signed_reply(query, fill, last_error, ps, flag, r));
        return r;
    }
    if s1 == 0 {
        let r = Ok(Vec::new());
        assert(signed_reply(query, fill, last_error, ps, flag, r));
        return r;
    }
    let buf: Vec<u8> = vec![0u8; s1 as usize];
    assert(buf@ =~= zeroed(s1 as nat));
    let ghost b0 = buf;
    let out2 = fill(&ps, flag, buf, s1);
    let (r2, b2, s2) = out2;
    assert(fill.ensures((&ps, flag, b0, s1), (r2, b2, s2)));
    if r2 == 0 {
        let code = last_error();
        let r = Err(CpcspError::from_raw(code));
        assert(signed_reply(query, fill, last_error, ps, flag, r));
        return r;
    }
    let mut signed = b2;
    signed.truncate(s2 as usize);
    assert(signed@ =~= truncated(b2@, s2 as int));
    let r = Ok(signed);
    assert(signed_reply(query, fill, last_error, ps, flag, r));
    r
}

/// The content of a verified message and the context of its signer's
/// certificate (`None` when the CSP returned NULL).
#[derive(Debug)]
pub struct VerifyResult {
    /// The signed content.
    pub content: Vec<u8>,
    /// The signer's certificate context.
    pub signer_cert: Option<usize>,
}

/// Verify a signed message (`CryptVerifyMessageSignature`, first
/// signer). `query(0)` asks for the content size; `fill(buffer, size)`
/// verifies, writes the content and returns the result, the buffer, the
/// content length and the signer's certificate context. Both calls are
/// made, even for empty content; a failed call gives the code from
/// `last_error`.
pub fn verify_signature<Q, G, E>(query: Q, fill: G, last_error: E) -> (r: CpcspResult<
    VerifyResult,
>) where
    Q: FnOnce(u32) -> (BOOL, u32),
    G: FnOnce(Vec<u8>, u32) -> (BOOL, Vec<u8>, u32, usize),
    E: FnOnce() -> u32,

    requires
        query.requires((0u32,)),
        forall|b: Vec<u8>, s: u32| fill.requires((b, s)),
        forall|b: Vec<u8>, s: u32, r2: BOOL, b2: Vec<u8>, s2: u32, cert: usize| #[trigger] fill.ensures((b, s), (r2, b2, s2, cert)) ==> b2@.len() == b@.len(),
        last_error.requires(()),
    ensures
        exists|r1: BOOL, s1: u32|
            #[trigger] query.ensures((0u32,), (r1, s1)) && (if r1 == 0 {
                r matches Err(e) && last_error.ensures((), e@)
            } else {
                exists|b0: Vec<u8>, r2: BOOL, b2: Vec<u8>, s2: u32, cert: usize|
                    #[trigger] fill.ensures((b0, s1), (r2, b2, s2, cert)) && b0@ == zeroed(
                        s1 as nat,
                    ) && (if r2 == 0 {
                        r matches Err(e) && last_error.ensures((), e@)
                    } else {
                        r matches Ok(v) && v.content@ == truncated(b2@, s2 as int) && v.signer_cert
                            == (if cert == 0 {
                            None
                        } else {
                            Some(cert)
                        })
                    })
            }),
{
    let out = query(0);
    let (r1, s1) = out;
    assert(query.ensures((0u32,), (r1, s1)));
    if r1 == 0 {
        let code = last_error();
        return Err(CpcspError::from_raw(code));
    }
    let buf: Vec<u8> = vec![0u8; s1 as usize];
    assert(buf@ =~= zeroed(s1 as nat));
    let ghost b0 = buf;
    let out2 = fill(buf, s1);
    let (r2, b2, s2, cert) = out2;
    assert(fill.ensures((b0, s1), (r2, b2, s2, cert)));
    if r2 == 0 {
        let code = last_error();
        return Err(CpcspError::from_raw(code));
    }
    let mut content = b2;
    content.truncate(s2 as usize);
    assert(content@ =~= truncated(b2@, s2 as int));
    let signer_cert = if cert == 0 {
        None
    } else {
        Some(cert)
    };
    Ok(VerifyResult { content, signer_cert })
}

} // verus!
