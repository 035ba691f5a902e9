//! Certificate chain policies and the results of chain and revocation
//! checks.
//!
//! Building a chain (`CertGetCertificateChain`), checking its policy
//! (`CertVerifyCertificateChainPolicy`) and checking revocation
//! (`CertVerifyRevocation`) are calls into the CSP; this module holds the
//! policies they are asked for and the values made of their replies.
use vstd::prelude::*;
use vstd::string::StringExecFns;
use crate::raw_constants::{CERT_CHAIN_REVOCATION_CHECK_END_CERT, CERT_VERIFY_REV_SERVER_OCSP};
use crate::raw_types::{BOOL, DWORD, LONG};
use crate::types::error::{CpcspError, CpcspResult};
use crate::text::{decimal, decimal_signed, hex8_upper, push_decimal_i32, push_decimal_u32, push_hex8_upper};

verus! {

/// Chain policies for `CertVerifyCertificateChainPolicy`.
#[derive(Debug, Clone, Copy, PartialEq, Eq, Structural)]
pub enum CertChainPolicy {
    /// Basic structural check of the certificates.
    Base,
    /// Authenticode.
    Authenticode,
    /// SSL/TLS.
    Ssl,
    /// Basic constraints.
    BasicConstraints,
    /// NT authentication.
    NtAuth,
}

/// The OID of each policy.
pub open spec fn policy_oid(p: CertChainPolicy) -> Seq<char> {
    match p {
        CertChainPolicy::Base => "1.3.6.1.5.5.7.2.1"@,
        CertChainPolicy::Authenticode => "1.3.6.1.5.5.7.2.2"@,
        CertChainPolicy::Ssl => "1.3.6.1.5.5.7.2.3"@,
        CertChainPolicy::BasicConstraints => "1.3.6.1.5.5.7.2.12"@,
        CertChainPolicy::NtAuth => "1.3.6.1.5.5.7.2.4"@,
    }
}

impl CertChainPolicy {
    /// The OID under which `CertVerifyCertificateChainPolicy` knows the
    /// policy (to be passed as a zero-terminated string).
    pub fn as_oid(&self) -> (s: &'static str)
        ensures
            s@ == policy_oid(*self),
    {
        match self {
            CertChainPolicy::Base => "1.3.6.1.5.5.7.2.1",
            CertChainPolicy::Authenticode => "1.3.6.1.5.5.7.2.2",
            CertChainPolicy::Ssl => "1.3.6.1.5.5.7.2.3",
            CertChainPolicy::BasicConstraints => "1.3.6.1.5.5.7.2.12",
            CertChainPolicy::NtAuth => "1.3.6.1.5.5.7.2.4",
        }
    }
}

/// The result of a chain policy check.
#[derive(Debug, Clone)]
pub struct CertChainPolicyStatus {
    /// Error code (0 = OK).
    pub error: DWORD,
    /// Index of the chain where the error was found.
    pub chain_index: LONG,
    /// Index of the element within the chain where the error was found.
    pub element_index: LONG,
}

/// Text of a policy status.
pub open spec fn policy_status_text(error: DWORD, chain_index: LONG, element_index: LONG) -> Seq<
    char,
> {
    if error == 0 {
        "OK"@
    } else {
        "Ошибка 0x"@ + hex8_upper(error) + " (цепочка: "@ + decimal_signed(chain_index as int)
            + ", элемент: "@ + decimal_signed(element_index as int) + ")"@
    }
}

impl CertChainPolicyStatus {
    /// Whether the check passed.
    pub fn is_ok(&self) -> (b: bool)
        ensures
            b == (self.error == 0),
    {
        self.error == 0
    }

    /// The error code.
    pub fn error(&self) -> (e: DWORD)
        ensures
            e == self.error,
    {
        self.error
    }

    /// The status as text: "OK", or the error code with the indices.
    pub fn describe(&self) -> (s: String)
        ensures
            s@ == policy_status_text(self.error, self.chain_index, self.element_index),
    {
        if self.error == 0 {
            String::from_str("OK")
        } else {
            let mut s = String::from_str("Ошибка 0x");
            push_hex8_upper(&mut s, self.error);
            s.append(" (цепочка: ");
            push_decimal_i32(&mut s, self.chain_index);
            s.append(", элемент: ");
            push_decimal_i32(&mut s, self.element_index);
            s.append(")");
            s
        }
    }
}

/// Revocation checks (`CertVerifyRevocation`).
pub struct CertRevocation;

/// The result of a revocation check.
#[derive(Debug, Clone)]
pub struct CertRevocationStatus {
    /// Error code (0 = not revoked).
    pub error: DWORD,
    /// Index of the certificate in the checked array.
    pub index: DWORD,
    /// CRL reason code.
    pub reason: DWORD,
    /// Whether freshness information is present.
    pub has_freshness_time: bool,
    /// Freshness time of the CRL, in seconds.
    pub freshness_time: DWORD,
}

/// Text of a revocation status.
pub open spec fn revocation_status_text(error: DWORD, reason: DWORD) -> Seq<char> {
    if error != 0 {
        "Отозван (ошибка 0x"@ + hex8_upper(error) + ", причина: "@ + decimal(reason as nat)
            + ")"@
    } else {
        "Не отозван"@
    }
}

impl CertRevocation {
    /// The status made of the reply of `CertVerifyRevocation`: the call's
    /// `BOOL` result and the fields of the `CERT_REVOCATION_STATUS` it
    /// filled. A successful call means "not revoked" whatever error the
    /// structure holds.
    pub fn status_from_reply(
        result: BOOL,
        dw_error: DWORD,
        dw_index: DWORD,
        dw_reason: DWORD,
        f_has_freshness_time: BOOL,
        dw_freshness_time: DWORD,
    ) -> (s: CertRevocationStatus)
        ensures
            s.error == (if result == 0 {
                dw_error
            } else {
                0
            }),
            s.index == dw_index,
            s.reason == dw_reason,
            s.has_freshness_time == (f_has_freshness_time != 0),
            s.freshness_time == dw_freshness_time,
    {
        CertRevocationStatus {
            error: if result == 0 {
                dw_error
            } else {
                0
            },
            index: dw_index,
            reason: dw_reason,
            has_freshness_time: f_has_freshness_time != 0,
            freshness_time: dw_freshness_time,
        }
    }
}

/// The status `status_from_reply` makes of a reply.
pub open spec fn revocation_status_of(
    result: BOOL,
    dw_error: DWORD,
    dw_index: DWORD,
    dw_reason: DWORD,
    f_has_freshness_time: BOOL,
    dw_freshness_time: DWORD,
) -> CertRevocationStatus {
    CertRevocationStatus {
        error: if result == 0 {
            dw_error
        } else {
            0
        },
        index: dw_index,
        reason: dw_reason,
        has_freshness_time: f_has_freshness_time != 0,
        freshness_time: dw_freshness_time,
    }
}

/// A revocation check whose call succeeded reports "not revoked",
/// whatever error the status structure holds; one whose call failed
/// reports "revoked" exactly when the structure holds an error.
pub proof fn law_revoked_only_on_failed_call(
    result: BOOL,
    dw_error: DWORD,
    dw_index: DWORD,
    dw_reason: DWORD,
    f_has_freshness_time: BOOL,
    dw_freshness_time: DWORD,
)
    ensures
        ({
            let s = revocation_status_of(
                result,
                dw_error,
                dw_index,
                dw_reason,
                f_has_freshness_time,
                dw_freshness_time,
            );
            (s.error != 0) <==> (result == 0 && dw_error != 0)
        }),
{
}

/// A revocation check whose call failed keeps the CSP's error code as it
/// is (such as `CRYPT_E_REVOCATION_OFFLINE` or `CRYPT_E_REVOKED`); one
/// whose call succeeded has error 0. Index, reason and freshness are
/// passed on unchanged either way.
pub proof fn law_failed_check_keeps_error(
    result: BOOL,
    dw_error: DWORD,
    dw_index: DWORD,
    dw_reason: DWORD,
    f_has_freshness_time: BOOL,
    dw_freshness_time: DWORD,
)
    ensures
        ({
            let s = revocation_status_of(
                result,
                dw_error,
                dw_index,
                dw_reason,
                f_has_freshness_time,
                dw_freshness_time,
            );
            &&& result == 0 ==> s.error == dw_error
            &&& result != 0 ==> s.error == 0
            &&& s.index == dw_index
            &&& s.reason == dw_reason
            &&& s.has_freshness_time <==> f_has_freshness_time != 0
            &&& s.freshness_time == dw_freshness_time
        }),
{
}

impl CertRevocation {
    /// Check a certificate's revocation (`CertVerifyRevocation`) with the
    /// given flags. `call` receives the flags and returns the call's
    /// result and the fields of the `CERT_REVOCATION_STATUS` it filled
    /// (error, index, reason, freshness flag, freshness time). The check
    /// itself never fails: a failed call is reported in the status.
    pub fn check<F: FnOnce(DWORD) -> (BOOL, DWORD, DWORD, DWORD, BOOL, DWORD)>(
        flags: DWORD,
        call: F,
    ) -> (r: CpcspResult<CertRevocationStatus>)
        requires
            call.requires((flags,)),
        ensures
            exists|b: BOOL, e: DWORD, i: DWORD, rs: DWORD, f: BOOL, t: DWORD|
                #[trigger] call.ensures((flags,), (b, e, i, rs, f, t)) && r == Ok::<
                    CertRevocationStatus,
                    CpcspError,
                >(revocation_status_of(b, e, i, rs, f, t)),
            exists|b: BOOL, e: DWORD, i: DWORD, rs: DWORD, f: BOOL, t: DWORD|
                #[trigger] call.ensures((flags,), (b, e, i, rs, f, t)) && (r matches Ok(s) && s.error
                    == (if b == 0 {
                    e
                } else {
                    0
                }) && s.index == i && s.reason == rs && s.has_freshness_time == (f != 0)
                    && s.freshness_time == t),
    {
        let out = call(flags);
        let (b, e, i, rs, f, t) = out;
        assert(call.ensures((flags,), (b, e, i, rs, f, t)));
        Ok(Self::status_from_reply(b, e, i, rs, f, t))
    }

    /// The simplest check: `CERT_VERIFY_REV_SERVER_OCSP`, no issuer and
    /// no extra store.
    pub fn check_simple<F: FnOnce(DWORD) -> (BOOL, DWORD, DWORD, DWORD, BOOL, DWORD)>(call: F) -> (r:
        CpcspResult<CertRevocationStatus>)
        requires
            call.requires((CERT_VERIFY_REV_SERVER_OCSP,)),
        ensures
            exists|b: BOOL, e: DWORD, i: DWORD, rs: DWORD, f: BOOL, t: DWORD|
                #[trigger] call.ensures((CERT_VERIFY_REV_SERVER_OCSP,), (b, e, i, rs, f, t)) && r
                    == Ok::<CertRevocationStatus, CpcspError>(
                    revocation_status_of(b, e, i, rs, f, t),
                ),
            exists|b: BOOL, e: DWORD, i: DWORD, rs: DWORD, f: BOOL, t: DWORD|
                #[trigger] call.ensures((CERT_VERIFY_REV_SERVER_OCSP,), (b, e, i, rs, f, t)) && (r
                    matches Ok(s) && s.error == (if b == 0 {
                    e
                } else {
                    0
                }) && s.index == i && s.reason == rs && s.has_freshness_time == (f != 0)
                    && s.freshness_time == t),
    {
        Self::check(CERT_VERIFY_REV_SERVER_OCSP, call)
    }
}

/// Build a certificate chain (`CertGetCertificateChain`) with the given
/// flags. `call` receives the flags and returns the call's result and the
/// chain context it gave. A failed call gives the code from `last_error`;
/// a NULL context gives `E_OUTOFMEMORY` (0x8007000E).
pub fn build<F: FnOnce(DWORD) -> (BOOL, usize), E: FnOnce() -> u32>(
    flags: DWORD,
    call: F,
    last_error: E,
) -> (r: CpcspResult<usize>)
    requires
        call.requires((flags,)),
        last_error.requires(()),
    ensures
        exists|b: BOOL, ctx: usize|
            #[trigger] call.ensures((flags,), (b, ctx)) && (if b == 0 {
                r matches Err(e) && last_error.ensures((), e@)
            } else if ctx == 0 {
                r matches Err(e) && e@ == 0x8007000E
            } else {
                r == Ok::<usize, CpcspError>(ctx)
            }),
{
    let out = call(flags);
    let (b, ctx) = out;
    assert(call.ensures((flags,), (b, ctx)));
    if b == 0 {
        let c = last_error();
        return Err(CpcspError::from_raw(c));
    }
    if ctx == 0 {
        return Err(CpcspError::from_raw(0x8007000E));
    }
    Ok(ctx)
}

/// Build a chain with the default settings (flags 0).
pub fn build_default<F: FnOnce(DWORD) -> (BOOL, usize), E: FnOnce() -> u32>(
    call: F,
    last_error: E,
) -> (r: CpcspResult<usize>)
    requires
        call.requires((0u32,)),
        last_error.requires(()),
    ensures
        exists|b: BOOL, ctx: usize|
            #[trigger] call.ensures((0u32,), (b, ctx)) && (if b == 0 {
                r matches Err(e) && last_error.ensures((), e@)
            } else if ctx == 0 {
                r matches Err(e) && e@ == 0x8007000E
            } else {
                r == Ok::<usize, CpcspError>(ctx)
            }),
{
    build(0, call, last_error)
}

/// Build a chain that checks the end certificate's revocation: the given
/// flags with `CERT_CHAIN_REVOCATION_CHECK_END_CERT` added.
pub fn build_with_revocation<F: FnOnce(DWORD) -> (BOOL, usize), E: FnOnce() -> u32>(
    flags: DWORD,
    call: F,
    last_error: E,
) -> (r: CpcspResult<usize>)
    requires
        call.requires((flags | CERT_CHAIN_REVOCATION_CHECK_END_CERT,)),
        last_error.requires(()),
    ensures
        exists|b: BOOL, ctx: usize|
            #[trigger] call.ensures((flags | CERT_CHAIN_REVOCATION_CHECK_END_CERT,), (b, ctx)) && (
            if b == 0 {
                r matches Err(e) && last_error.ensures((), e@)
            } else if ctx == 0 {
                r matches Err(e) && e@ == 0x8007000E
            } else {
                r == Ok::<usize, CpcspError>(ctx)
            }),
{
    build(flags | CERT_CHAIN_REVOCATION_CHECK_END_CERT, call, last_error)
}

/// Check a chain against a policy (`CertVerifyCertificateChainPolicy`).
/// `call` receives the policy's OID and returns the call's result and the
/// fields of the `CERT_CHAIN_POLICY_STATUS` it filled (error, chain
/// index, element index). A failed call gives the code from
/// `last_error`.
pub fn verify_policy<F: FnOnce(&str) -> (BOOL, DWORD, LONG, LONG), E: FnOnce() -> u32>(
    policy: CertChainPolicy,
    call: F,
    last_error: E,
) -> (r: CpcspResult<CertChainPolicyStatus>)
    requires
        forall|s: &str| call.requires((s,)),
        last_error.requires(()),
    ensures
        exists|s: &str, b: BOOL, e: DWORD, ci: LONG, ei: LONG|
            #[trigger] call.ensures((s,), (b, e, ci, ei)) && s@ == policy_oid(policy) && (if b
                == 0 {
                r matches Err(c) && last_error.ensures((), c@)
            } else {
                r matches Ok(st) && st.error == e && st.chain_index == ci && st.element_index == ei
            }),
{
    let oid = policy.as_oid();
    let out = call(oid);
    let (b, e, ci, ei) = out;
    assert(call.ensures((oid,), (b, e, ci, ei)));
    if b == 0 {
        let c = last_error();
        return Err(CpcspError::from_raw(c));
    }
    Ok(CertChainPolicyStatus { error: e, chain_index: ci, element_index: ei })
}

impl CertRevocationStatus {
    /// Whether the certificate is revoked.
    pub fn is_revoked(&self) -> (b: bool)
        ensures
            b == (self.error != 0),
    {
        self.error != 0
    }

    /// The error code.
    pub fn error(&self) -> (e: DWORD)
        ensures
            e == self.error,
    {
        self.error
    }

    /// The CRL reason code.
    pub fn reason(&self) -> (r: DWORD)
        ensures
            r == self.reason,
    {
        self.reason
    }

    /// The status as text.
    pub fn describe(&self) -> (s: String)
        ensures
            s@ == revocation_status_text(self.error, self.reason),
    {
        if self.error != 0 {
            let mut s = String::from_str("Отозван (ошибка 0x");
            push_hex8_upper(&mut s, self.error);
            s.append(", причина: ");
            push_decimal_u32(&mut s, self.reason);
            s.append(")");
            s
        } else {
            String::from_str("Не отозван")
        }
    }
}

} // verus!
