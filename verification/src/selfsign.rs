//! The computations behind creating a self-signed certificate: the
//! validity period and its calendar times.
use vstd::prelude::*;
use crate::calendar::{days_from_civil, is_valid_date};
use crate::asn1::{binary_reply, Asn1};
use crate::ffi_helpers::string::{c_string_of, encode_utf16, to_c_string, to_wide};
use crate::provider::Provider;
use crate::raw_types::{DWORD, SYSTEMTIME, WORD};
use crate::types::error::{CpcspError, CpcspResult};

pub use crate::calendar::civil_from_days;

verus! {

/// `CERT_X500_NAME_STR`: the string type of an X.500 name for
/// `CertStrToNameA`.
pub const CERT_X500_NAME_STR: DWORD = 3;

/// The calendar time (UTC) `total` seconds after 1970-01-01T00:00:00:
/// the year is kept modulo 2^16 as `WORD`, the day of week and the
/// milliseconds are 0.
pub fn system_time_from_unix_secs(total: i64) -> (t: SYSTEMTIME)
    ensures
        exists|y: int|
            #![trigger days_from_civil(y, t.w_month as int, t.w_day as int)]
            is_valid_date(y, t.w_month as int, t.w_day as int) && days_from_civil(
                y,
                t.w_month as int,
                t.w_day as int,
            ) == total / 86400 && t.w_year == y as u16,
        t.w_hour == (total % 86400) / 3600,
        t.w_minute == (total % 86400) % 3600 / 60,
        t.w_second == (total % 86400) % 60,
        t.w_day_of_week == 0,
        t.w_milliseconds == 0,
{
    let days: i64;
    let secs_of_day: i64;
    if total >= 0 {
        days = total / 86400;
        secs_of_day = total % 86400;
    } else {
        let a: i64 = -(total + 1);
        let q: i64 = a / 86400;
        days = -q - 1;
        secs_of_day = 86399 - a % 86400;
        proof {
            vstd::arithmetic::div_mod::lemma_fundamental_div_mod(a as int, 86400);
            vstd::arithmetic::div_mod::lemma_mod_bound(a as int, 86400);
            vstd::arithmetic::div_mod::lemma_fundamental_div_mod_converse(
                total as int,
                86400,
                days as int,
                secs_of_day as int,
            );
        }
    }
    let (year, month, day) = civil_from_days(days);
    let hour: i64 = secs_of_day / 3600;
    let minute: i64 = (secs_of_day % 3600) / 60;
    let second: i64 = secs_of_day % 60;
    let t = SYSTEMTIME {
        w_year: #[verifier::truncate] (year as WORD),
        w_month: month as WORD,
        w_day_of_week: 0,
        w_day: day as WORD,
        w_hour: hour as WORD,
        w_minute: minute as WORD,
        w_second: second as WORD,
        w_milliseconds: 0,
    };
    assert(is_valid_date(year as int, t.w_month as int, t.w_day as int));
    t
}

/// `t` moved `years` years on: only the year changes (month, day and
/// time stay), and the year saturates at 65535.
pub open spec fn years_later(t: SYSTEMTIME, years: u32) -> SYSTEMTIME {
    SYSTEMTIME {
        w_year: if t.w_year + years > u16::MAX {
            u16::MAX
        } else {
            (t.w_year + years) as u16
        },
        ..t
    }
}

/// Add `years` years to a calendar time (see `years_later`).
pub fn add_years(t: SYSTEMTIME, years: u32) -> (r: SYSTEMTIME)
    ensures
        r == years_later(t, years),
{
    let sum: u64 = t.w_year as u64 + years as u64;
    let mut y = t;
    y.w_year = if sum > 0xFFFF {
        0xFFFF
    } else {
        sum as WORD
    };
    y
}

/// The DER encoding of an X.500 name given as a string, such as
/// `"CN=Example, O=Organization"` (`CertStrToNameA` with
/// `CERT_X500_NAME_STR`, called twice as `Asn1::string_to_binary`
/// describes).
pub fn encode_x500_name<F, G, E>(subject: &str, get_size: F, fill: G, last_error: E) -> (r:
    CpcspResult<Vec<u8>>) where
    F: FnOnce(&Vec<u8>, DWORD, u32) -> (u32, u32),
    G: FnOnce(&Vec<u8>, DWORD, Vec<u8>, u32) -> (u32, Vec<u8>, u32),
    E: FnOnce() -> u32,

    requires
        forall|c: &Vec<u8>| get_size.requires((c, CERT_X500_NAME_STR, 0u32)),
        forall|c: &Vec<u8>, b: Vec<u8>, s: u32| fill.requires((c, CERT_X500_NAME_STR, b, s)),
        forall|c: &Vec<u8>, b: Vec<u8>, s: u32, r2: u32, b2: Vec<u8>, s2: u32| #[trigger] fill.ensures((c, CERT_X500_NAME_STR, b, s), (r2, b2, s2)) ==> b2@.len() == b@.len(),
        last_error.requires(()),
    ensures
        binary_reply(subject@, get_size, fill, last_error, CERT_X500_NAME_STR, r),
{
    Asn1::string_to_binary(subject, CERT_X500_NAME_STR, get_size, fill, last_error)
}

/// The container name a self-signed certificate records: the provider's
/// container name, or the empty string when it could not be read.
pub open spec fn container_or_empty(container: CpcspResult<String>) -> Seq<char> {
    match container {
        Ok(s) => s@,
        Err(_) => Seq::<char>::empty(),
    }
}

/// Create a self-signed certificate (`CertCreateSelfSignCertificate`).
///
/// `name_der` is the encoded subject (from `encode_x500_name`),
/// `container` what reading the provider's container name gave, `now`
/// the current UTC time. `create` receives the provider handle, the
/// subject, the container name as zero-terminated UTF-16 (empty when it
/// could not be read), the provider type, the key type, the hash OID's C
/// string, the start and the end of validity (`validity_years` later),
/// and returns the certificate context. A hash OID holding a zero
/// character gives `ERROR_INVALID_PARAMETER` (0x57) without a call; a
/// NULL context gives the code from `last_error`.
pub fn create_self_signed<C, E>(
    prov: &Provider,
    name_der: &Vec<u8>,
    container: CpcspResult<String>,
    key_spec: DWORD,
    hash_oid: &str,
    now: SYSTEMTIME,
    validity_years: u32,
    create: C,
    last_error: E,
) -> (r: CpcspResult<usize>) where
    C: FnOnce(usize, &Vec<u8>, &Vec<u16>, DWORD, DWORD, &Vec<u8>, SYSTEMTIME, SYSTEMTIME) -> usize,
    E: FnOnce() -> u32,

    requires
        forall|w: &Vec<u16>, o: &Vec<u8>|
            create.requires(
                (
                    prov.spec_handle(),
                    name_der,
                    w,
                    prov.spec_provider_type(),
                    key_spec,
                    o,
                    now,
                    years_later(now, validity_years),
                ),
            ),
        last_error.requires(()),
    ensures
        hash_oid@.contains('\0') ==> (r matches Err(e) && e@ == 0x57),
        !hash_oid@.contains('\0') ==> exists|w: Vec<u16>, o: Vec<u8>, ctx: usize|
            #[trigger] create.ensures(
                (
                    prov.spec_handle(),
                    name_der,
                    &w,
                    prov.spec_provider_type(),
                    key_spec,
                    &o,
                    now,
                    years_later(now, validity_years),
                ),
                ctx,
            ) && w@ == encode_utf16(container_or_empty(container)).push(0u16) && o@
                == c_string_of(hash_oid@) && (if ctx == 0 {
                r matches Err(e) && last_error.ensures((), e@)
            } else {
                r == Ok::<usize, CpcspError>(ctx)
            }),
{
    let name = match container {
        Ok(s) => s,
        Err(_) => String::new(),
    };
    let w = to_wide(name.as_str());
    let o = match to_c_string(hash_oid) {
        Ok(o) => o,
        Err(e) => return Err(e),
    };
    let end = add_years(now, validity_years);
    let h = prov.raw_handle();
    let t = prov.provider_type();
    let ctx = create(h, name_der, &w, t, key_spec, &o, now, end);
    assert(create.ensures((h, name_der, &w, t, key_spec, &o, now, end), ctx));
    if ctx == 0 {
        let c = last_error();
        return Err(CpcspError::from_raw(c));
    }
    Ok(ctx)
}

} // verus!
