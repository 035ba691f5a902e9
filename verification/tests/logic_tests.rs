use cpcsp::asn1::Asn1;
use cpcsp::calendar::civil_from_days;
use cpcsp::cert_store::{add_to_system_store, find_by_sha1, open_system};
use cpcsp::certificate::{name_from_output, sha1_from_property};
use cpcsp::chain::{
    build, build_default, build_with_revocation, verify_policy, CertChainPolicy,
    CertChainPolicyStatus, CertRevocation,
};
use cpcsp::ffi_helpers::buffer::{
    call_with_buffer, call_with_sized_buffer, copy_bytes, copy_prefix, dword_from_param,
    get_buffer_no_bool,
};
use cpcsp::key::{encrypt, plaintext_in_buffer};
use cpcsp::msg::{is_enveloped, is_signed, require_participants};
use cpcsp::pfx::{Pfx, IMPORT_FLAGS};
use cpcsp::pki::{OidInfo, Pki, OID_NOT_FOUND};
use cpcsp::raw_constants::{
    CERT_CHAIN_REVOCATION_CHECK_END_CERT, CERT_VERIFY_REV_SERVER_OCSP, CMSG_ENVELOPED, CMSG_SIGNED,
    CMSG_SIGNED_AND_ENVELOPED, CRYPT_STRING_BASE64, CRYPT_STRING_BASE64HEADER, CRYPT_STRING_HEX,
};
use cpcsp::selfsign::{add_years, system_time_from_unix_secs};
use cpcsp::types::error::{check_bool, check_bool_with, CpcspError};

#[test]
fn check_bool_reads_last_error_only_on_failure() {
    assert!(check_bool(|| 1, || panic!("not read on success")).is_ok());
    assert_eq!(check_bool(|| 0, || 0x1F).unwrap_err().code(), 0x1F);
    assert_eq!(check_bool_with(|| (1, "v"), || 0).unwrap(), "v");
    assert_eq!(check_bool_with(|| (0, 5u8), || 2).unwrap_err().code(), 2);
}

#[test]
fn call_with_buffer_protocol() {
    // zero size: no second call
    let v = call_with_buffer(0, |_| (1, 0), |_, _| panic!("no fill for zero size"), || 0).unwrap();
    assert!(v.is_empty());
    // fill cut to the reported length
    let v = call_with_buffer(
        0,
        |_| (1, 4),
        |mut b, n| {
            assert_eq!((b.len(), n), (4, 4));
            b[0] = 1;
            b[1] = 2;
            b[2] = 3;
            (1, b, 3)
        },
        || 0,
    )
    .unwrap();
    assert_eq!(v, vec![1, 2, 3]);
    // failing size query
    assert_eq!(call_with_buffer(0, |_| (0, 4), |b, _| (1, b, 0), || 7).unwrap_err().code(), 7);
    // failing fill
    assert_eq!(call_with_buffer(0, |_| (1, 4), |b, _| (0, b, 0), || 8).unwrap_err().code(), 8);
}

#[test]
fn get_buffer_no_bool_ignores_query_result() {
    let v = get_buffer_no_bool(0, |_| (0, 2), |mut b, _| {
        b[1] = 9;
        (1, b, 2)
    }, || 0)
    .unwrap();
    assert_eq!(v, vec![0, 9]);
    assert!(get_buffer_no_bool(0, |_| (0, 0), |b, _| (1, b, 0), || 0).unwrap().is_empty());
}

#[test]
fn sized_buffer_always_calls_twice() {
    let mut called = false;
    let v = call_with_sized_buffer(|_| (1, 0), |b, n| {
        called = true;
        assert_eq!(n, 0);
        (1, b, 0)
    }, || 0)
    .unwrap();
    assert!(called);
    assert!(v.is_empty());
    assert_eq!(call_with_sized_buffer(|_| (0, 3), |b, _| (1, b, 3), || 4).unwrap_err().code(), 4);
}

#[test]
fn copies() {
    assert_eq!(copy_prefix(&[1, 2, 3], 2), vec![1, 2]);
    assert_eq!(copy_bytes(&[4, 5]), vec![4, 5]);
}

#[test]
fn dword_param_little_endian() {
    assert_eq!(dword_from_param(&[0x20, 0, 0, 0]).unwrap(), 32);
    assert_eq!(dword_from_param(&[0x78, 0x56, 0x34, 0x12, 0xFF]).unwrap(), 0x1234_5678);
    assert_eq!(dword_from_param(&[1, 2, 3]).unwrap_err().code(), 1);
    for v in [0u32, 1, 0xDEAD_BEEF, u32::MAX] {
        assert_eq!(dword_from_param(&v.to_le_bytes()).unwrap(), v);
    }
}

#[test]
fn binary_to_text_formats_and_nul() {
    let reply = |text: &'static [u8]| {
        move |f: u32, b: Vec<u8>, n: u32| {
            let mut b = b;
            b[..text.len()].copy_from_slice(text);
            let _ = (f, n);
            (1, b, text.len() as u32)
        }
    };
    // reported length includes the zero: it is cut off
    let s = Asn1::binary_to_base64(|f, _| {
        assert_eq!(f, CRYPT_STRING_BASE64);
        (1, 5)
    }, reply(b"QUJD\0"), || 0)
    .unwrap();
    assert_eq!(s, "QUJD");
    // reported length without the zero: the whole buffer is kept
    let s = Asn1::binary_to_hex(|f, _| {
        assert_eq!(f, CRYPT_STRING_HEX);
        (1, 4)
    }, reply(b"41\n"), || 0)
    .unwrap();
    assert_eq!(s, "41\n\0");
    let s = Asn1::binary_to_base64_header(|f, _| {
        assert_eq!(f, CRYPT_STRING_BASE64HEADER);
        (1, 0)
    }, reply(b""), || 0)
    .unwrap();
    assert_eq!(s, "");
    let e = Asn1::binary_to_string(1, |_, _| (1, 2), reply(b"\xFF\0"), || 0).unwrap_err();
    assert_eq!(e.code(), 0x57);
    let e = Asn1::binary_to_string(1, |_, _| (0, 2), reply(b""), || 3).unwrap_err();
    assert_eq!(e.code(), 3);
}

#[test]
fn string_to_binary_passes_c_string() {
    let v = Asn1::base64_to_binary(
        "QUJD",
        |c, f, _| {
            assert_eq!(c, &b"QUJD\0".to_vec());
            assert_eq!(f, CRYPT_STRING_BASE64);
            (1, 8)
        },
        |_, _, mut b, _| {
            b[..3].copy_from_slice(b"ABC");
            (1, b, 3)
        },
        || 0,
    )
    .unwrap();
    assert_eq!(v, b"ABC".to_vec());
    let e = Asn1::hex_to_binary("4\x001", |_, _, _| panic!("no call"), |_, _, b, _| (1, b, 0), || 0).unwrap_err();
    assert_eq!(e.code(), 0x57);
    let v = Asn1::hex_to_binary("", |_, _, _| (1, 0), |_, _, _, _| panic!("no fill"), || 0).unwrap();
    assert!(v.is_empty());
}

#[test]
fn oid_info_from_parts() {
    let name: Vec<u16> = "ГОСТ".encode_utf16().chain([0, 0x41]).collect();
    let info = OidInfo::from_parts(Some(b"1.2.643"), Some(&name), 1, 0x801e);
    assert_eq!(info.oid, "1.2.643");
    assert_eq!(info.name, "ГОСТ");
    assert_eq!((info.group_id, info.alg_id), (1, 0x801e));
    let lossy = OidInfo::from_parts(Some(&[0x31, 0xFF]), None, 0, 0);
    assert_eq!(lossy.oid, "1\u{FFFD}");
    assert_eq!(lossy.name, "");
    let none = OidInfo::from_parts(None, Some(&[0xD800, 0]), 0, 0);
    assert_eq!(none.oid, "");
    assert_eq!(none.name, "\u{FFFD}");
}

#[test]
fn pki_lookups() {
    let found = OidInfo::from_parts(Some(b"1.2"), None, 2, 3);
    let r = Pki::get_default_hash_oid_info("1.2.643.7.1.1.1.1", |c| {
        assert_eq!(c.last(), Some(&0));
        Some(found.clone())
    })
    .unwrap();
    assert_eq!(r.alg_id, 3);
    let e = Pki::get_default_signature_oid_info("x", |_| None).unwrap_err();
    assert_eq!(e.code(), OID_NOT_FOUND);
    let e = Pki::get_public_key_oid_info("a\0", 1, |_, _| panic!("no call")).unwrap_err();
    assert_eq!(e.code(), 0x57);
    let e = Pki::get_signature_oid_info("a", "b\0", |_, _| panic!("no call")).unwrap_err();
    assert_eq!(e.code(), 0x57);
    assert!(Pki::get_signature_oid_info("a", "b", |c, h| {
        assert_eq!((c.len(), h.len()), (2, 2));
        None
    })
    .is_err());
    assert_eq!(Pki::get_provider_hash_alg_id(5, "o", |p, _| {
        assert_eq!(p, 5);
        0x8021
    }, || 0).unwrap(), 0x8021);
    assert_eq!(Pki::get_provider_hash_alg_id(5, "o", |_, _| 0, || 9).unwrap_err().code(), 9);
    assert_eq!(Pki::get_default_gost_hash_alg_id("o", |_| 0).unwrap_err().code(), OID_NOT_FOUND);
    assert_eq!(Pki::get_default_gost_hash_alg_id("o", |_| 0x8012).unwrap(), 0x8012);
}

#[test]
fn pki_pin_and_install() {
    assert_eq!(Pki::pin_from_reply(1, b"1234\0zz", || 0).unwrap(), "1234");
    assert_eq!(Pki::pin_from_reply(1, b"\xFF\0", || 0).unwrap_err().code(), 0x57);
    assert_eq!(Pki::pin_from_reply(0, b"1234\0", || 0x4C7).unwrap_err().code(), 0x4C7);
    let status = Pki::install_certificate(1, 2, &[0x30], "MY", 0x10, true, |p, k, c, w, f, b| {
        assert_eq!((p, k, c, f, b), (1, 2, &[0x30u8][..], 0x10, 1));
        assert_eq!(w, &vec![b'M' as u16, b'Y' as u16, 0]);
        (1, 42)
    }, || 0)
    .unwrap();
    assert_eq!(status, 42);
    let e = Pki::install_certificate(1, 2, &[], "MY", 0, false, |_, _, _, _, _, b| {
        assert_eq!(b, 0);
        (0, 0)
    }, || 11)
    .unwrap_err();
    assert_eq!(e.code(), 11);
}

#[test]
fn pfx_import_and_password() {
    let h = Pfx::import(&[1, 2], "pw", |d, w, f| {
        assert_eq!(d, &[1, 2]);
        assert_eq!(w, &vec![b'p' as u16, b'w' as u16, 0]);
        assert_eq!(f, IMPORT_FLAGS);
        0x77
    }, || 0)
    .unwrap();
    assert_eq!(h, 0x77);
    assert_eq!(Pfx::import_with_flags(&[], "", 3, |_, _, _| 0, || 0x56).unwrap_err().code(), 0x56);
    assert!(Pfx::verify_password(&[1], "test123", |_, _, f| {
        assert_eq!(f, 0);
        1
    }));
    assert!(!Pfx::verify_password(&[1], "wrong_password", |_, _, _| 0));
}

#[test]
fn pfx_export_protocol() {
    let v = Pfx::export(9, "p", 4, |s, _, f| {
        assert_eq!((s, f), (9, 4));
        (1, 3)
    }, |n| n == 3, |_, _, _, n| (1, vec![7; n as usize]), || 0)
    .unwrap();
    assert_eq!(v, vec![7, 7, 7]);
    let v = Pfx::export(9, "p", 4, |_, _, _| (1, 0), |_| panic!("no allocation"), |_, _, _, _| panic!("no fill"), || 0).unwrap();
    assert!(v.is_empty());
    let e = Pfx::export(9, "p", 4, |_, _, _| (1, 3), |_| false, |_, _, _, _| panic!("no fill"), || 0).unwrap_err();
    assert_eq!(e.code(), 8);
    let e = Pfx::export(9, "p", 4, |_, _, _| (0, 3), |_| true, |_, _, _, _| (1, vec![]), || 0x20).unwrap_err();
    assert_eq!(e.code(), 0x20);
    let e = Pfx::export(9, "p", 4, |_, _, _| (1, 3), |_| true, |_, _, _, _| (0, vec![]), || 0x21).unwrap_err();
    assert_eq!(e.code(), 0x21);
}

#[test]
fn chain_policy_oids_and_status() {
    assert_eq!(CertChainPolicy::Base.as_oid(), "1.3.6.1.5.5.7.2.1");
    assert_eq!(CertChainPolicy::Authenticode.as_oid(), "1.3.6.1.5.5.7.2.2");
    assert_eq!(CertChainPolicy::Ssl.as_oid(), "1.3.6.1.5.5.7.2.3");
    assert_eq!(CertChainPolicy::BasicConstraints.as_oid(), "1.3.6.1.5.5.7.2.12");
    assert_eq!(CertChainPolicy::NtAuth.as_oid(), "1.3.6.1.5.5.7.2.4");
    let ok = CertChainPolicyStatus { error: 0, chain_index: 0, element_index: 0 };
    assert!(ok.is_ok());
    assert_eq!(ok.describe(), "OK");
    let bad = CertChainPolicyStatus { error: 0x800B0109, chain_index: 0, element_index: -1 };
    assert!(!bad.is_ok());
    assert_eq!(bad.error(), 0x800B0109);
    assert_eq!(bad.describe(), "Ошибка 0x800B0109 (цепочка: 0, элемент: -1)");
}

#[test]
fn chain_verify_policy_and_build() {
    let st = verify_policy(CertChainPolicy::Ssl, |oid| {
        assert_eq!(oid, "1.3.6.1.5.5.7.2.3");
        (1, 5, 1, 2)
    }, || 0)
    .unwrap();
    assert_eq!((st.error, st.chain_index, st.element_index), (5, 1, 2));
    assert_eq!(verify_policy(CertChainPolicy::Base, |_| (0, 0, 0, 0), || 3).unwrap_err().code(), 3);
    assert_eq!(build(7, |f| {
        assert_eq!(f, 7);
        (1, 0x100)
    }, || 0).unwrap(), 0x100);
    assert_eq!(build_default(|f| {
        assert_eq!(f, 0);
        (1, 0)
    }, || 0).unwrap_err().code(), 0x8007000E);
    assert_eq!(build_with_revocation(1, |f| {
        assert_eq!(f, 1 | CERT_CHAIN_REVOCATION_CHECK_END_CERT);
        (0, 5)
    }, || 0x13).unwrap_err().code(), 0x13);
}

#[test]
fn revocation_status() {
    let s = CertRevocation::check_simple(|f| {
        assert_eq!(f, CERT_VERIFY_REV_SERVER_OCSP);
        (1, 0x80092010, 0, 1, 1, 60)
    })
    .unwrap();
    assert!(!s.is_revoked());
    assert_eq!(s.describe(), "Не отозван");
    assert!(s.has_freshness_time);
    let s = CertRevocation::check(0, |_| (0, 0x80092010, 0, 1, 0, 0)).unwrap();
    assert!(s.is_revoked());
    assert_eq!((s.error(), s.reason()), (0x80092010, 1));
    assert_eq!(s.describe(), "Отозван (ошибка 0x80092010, причина: 1)");
    let s = CertRevocation::status_from_reply(0, 0, 3, 0, 0, 0);
    assert!(!s.is_revoked());
    assert_eq!(s.index, 3);
}

#[test]
fn certificate_name_and_thumbprint() {
    let mut buf = vec![0u8; 16];
    buf[..5].copy_from_slice(b"CN=a\0");
    assert_eq!(name_from_output(buf.clone(), 5), Some("CN=a".to_string()));
    assert_eq!(name_from_output(buf.clone(), 0), None);
    assert_eq!(name_from_output(vec![0xFF, 0], 2), None);
    let h: Vec<u8> = (0u8..20).collect();
    let t = sha1_from_property(&h).unwrap();
    assert_eq!(t.to_vec(), h);
    assert_eq!(sha1_from_property(&h[..19]), None);
}

#[test]
fn cert_store_calls() {
    assert_eq!(open_system("MY", |c| {
        assert_eq!(c, &b"MY\0".to_vec());
        0x40
    }, || 0).unwrap(), 0x40);
    assert_eq!(open_system("MY", |_| 0, || 2).unwrap_err().code(), 2);
    assert_eq!(open_system("M\0Y", |_| panic!("no call"), || 0).unwrap_err().code(), 0x57);
    assert_eq!(find_by_sha1(&[0; 19], |_| panic!("no call")), None);
    assert_eq!(find_by_sha1(&[0; 20], |_| 0), None);
    assert_eq!(find_by_sha1(&[0; 20], |_| 0x10), Some(0x10));
    assert!(add_to_system_store("ROOT", &[0x30], |c, d| {
        assert_eq!((c.len(), d), (5, &[0x30u8][..]));
        1
    }, || 0)
    .is_ok());
    assert_eq!(add_to_system_store("ROOT", &[], |_, _| 0, || 0x5).unwrap_err().code(), 0x5);
}

#[test]
fn message_types_and_participants() {
    assert!(is_signed(Ok(CMSG_SIGNED)));
    assert!(is_signed(Ok(CMSG_SIGNED_AND_ENVELOPED)));
    assert!(!is_signed(Ok(CMSG_ENVELOPED)));
    assert!(!is_signed(Err(CpcspError::from_raw(1))));
    assert!(is_enveloped(Ok(CMSG_ENVELOPED)));
    assert!(is_enveloped(Ok(CMSG_SIGNED_AND_ENVELOPED)));
    assert!(!is_enveloped(Ok(CMSG_SIGNED)));
    assert!(!is_enveloped(Err(CpcspError::from_raw(1))));
    assert_eq!(require_participants(0).unwrap_err().code(), 0x57);
    assert!(require_participants(2).is_ok());
}

#[test]
fn key_encrypt_protocol() {
    assert_eq!(plaintext_in_buffer(&[1, 2], 4), vec![1, 2, 0, 0]);
    let v = encrypt(&[1, 2, 3], true, |f, n| {
        assert_eq!((f, n), (1, 3));
        (1, 8)
    }, |f, b, n, s| {
        assert_eq!((f, n, s), (1, 3, 8));
        assert_eq!(b, vec![1, 2, 3, 0, 0, 0, 0, 0]);
        (1, b.iter().map(|x| x ^ 0xFF).collect(), 8)
    }, || 0)
    .unwrap();
    assert_eq!(v, vec![0xFE, 0xFD, 0xFC, 0xFF, 0xFF, 0xFF, 0xFF, 0xFF]);
    let e = encrypt(&[1], false, |f, _| {
        assert_eq!(f, 0);
        (0, 0)
    }, |_, b, _, _| (1, b, 0), || 0x57).unwrap_err();
    assert_eq!(e.code(), 0x57);
}

#[test]
fn civil_dates() {
    assert_eq!(civil_from_days(0), (1970, 1, 1));
    assert_eq!(civil_from_days(-1), (1969, 12, 31));
    assert_eq!(civil_from_days(11016), (2000, 2, 29));
    assert_eq!(civil_from_days(19723), (2024, 1, 1));
    assert_eq!(civil_from_days(-719468), (0, 3, 1));
    assert_eq!(civil_from_days(2932896), (9999, 12, 31));
}

#[test]
fn system_time_conversion() {
    let t = system_time_from_unix_secs(1_700_000_000);
    assert_eq!((t.w_year, t.w_month, t.w_day), (2023, 11, 14));
    assert_eq!((t.w_hour, t.w_minute, t.w_second), (22, 13, 20));
    assert_eq!((t.w_day_of_week, t.w_milliseconds), (0, 0));
    let t = system_time_from_unix_secs(-1);
    assert_eq!((t.w_year, t.w_month, t.w_day), (1969, 12, 31));
    assert_eq!((t.w_hour, t.w_minute, t.w_second), (23, 59, 59));
    let end = add_years(t, 5);
    assert_eq!(end.w_year, 1974);
    assert_eq!(end.w_month, 12);
    let far = add_years(t, 64_000);
    assert_eq!(far.w_year, u16::MAX);
    assert_eq!(add_years(t, 70_000).w_year, u16::MAX);
    let y2024 = system_time_from_unix_secs(1_704_067_200);
    assert_eq!(y2024.w_year, 2024);
    let later = add_years(y2024, 65_536);
    assert_eq!(later.w_year, u16::MAX);
    assert_eq!((later.w_month, later.w_day, later.w_hour), (1, 1, 0));
    assert_eq!(add_years(y2024, u32::MAX).w_year, u16::MAX);
    assert_eq!(add_years(y2024, 63_511).w_year, 65_535);
    assert_eq!(add_years(y2024, 63_510).w_year, 65_534);
}

#[test]
fn asn1_encode_and_sign_and_encode() {
    let der = Asn1::encode("2.5.29.19", |c, enc, _| {
        assert_eq!(c, &b"2.5.29.19\0".to_vec());
        assert_eq!(enc, cpcsp::asn1::ENCODING);
        (1, 2)
    }, |_, _, mut b, _| {
        b.copy_from_slice(&[0x30, 0x00]);
        (1, b, 2)
    }, || 0)
    .unwrap();
    assert_eq!(der, vec![0x30, 0x00]);
    let signed = Asn1::sign_and_encode(2, "1.2.840.113549.1.9.1", |_, spec, _| {
        assert_eq!(spec, 2);
        (1, 4)
    }, |_, spec, mut b, _| {
        assert_eq!(spec, 2);
        b[0] = 0x30;
        (1, b, 1)
    }, || 0)
    .unwrap();
    assert_eq!(signed, vec![0x30]);
    let e = Asn1::sign_and_encode(2, "x\0", |_, _, _| panic!("no call"), |_, _, b, _| (1, b, 0), || 0).unwrap_err();
    assert_eq!(e.code(), 0x57);
    let e = Asn1::encode("x", |_, _, _| (0, 0), |_, _, b, _| (1, b, 0), || 0x1F).unwrap_err();
    assert_eq!(e.code(), 0x1F);
}
