use cpcsp::certificate::{find_extension, simple_name, verify_time, NAME_BUFFER_LEN};
use cpcsp::encrypt::{decrypt_message, encrypt_and_sign_message, encrypt_message};
use cpcsp::provider::Provider;
use cpcsp::selfsign::{create_self_signed, encode_x500_name, system_time_from_unix_secs, CERT_X500_NAME_STR};
use cpcsp::sign::{sign_message, verify_signature, Signer};
use cpcsp::types::error::{check_handle, CpcspError};

#[test]
fn sign_message_hands_every_signer_and_flag() {
    let signers = [Signer::new(0x10, 1, "1.2.643.7.1.1.2.2"), Signer::new(0x20, 2, "1.2.643.7.1.1.2.3")];
    let v = sign_message(
        &signers,
        true,
        |ps, f, s| {
            assert_eq!(ps.len(), 2);
            assert_eq!((ps[0].cert, ps[0].key_spec), (0x10, 1));
            assert_eq!(ps[0].hash_oid, b"1.2.643.7.1.1.2.2\0".to_vec());
            assert_eq!((ps[1].cert, ps[1].key_spec), (0x20, 2));
            assert_eq!(ps[1].hash_oid, b"1.2.643.7.1.1.2.3\0".to_vec());
            assert_eq!((f, s), (1, 0));
            (1, 4)
        },
        |ps, f, mut b, s| {
            assert_eq!(ps.len(), 2);
            assert_eq!((f, s, b.len()), (1, 4, 4));
            b[0] = 0x30;
            (1, b, 2)
        },
        || 0,
    )
    .unwrap();
    assert_eq!(v, vec![0x30, 0]);
    let e = sign_message(&[], false, |_, _, _| panic!("no call"), |_, _, b, _| (1, b, 0), || 0).unwrap_err();
    assert_eq!(e.code(), 0x57);
    let e = sign_message(&[Signer::new(1, 1, "a\0")], false, |_, _, _| panic!("no call"), |_, _, b, _| (1, b, 0), || 0)
        .unwrap_err();
    assert_eq!(e.code(), 0x57);
    // a zero character in a later signer's OID is refused too
    let e = sign_message(&[Signer::new(1, 1, "o"), Signer::new(2, 1, "b\0")], false, |_, _, _| panic!("no call"), |_, _, b, _| (1, b, 0), || 0)
        .unwrap_err();
    assert_eq!(e.code(), 0x57);
    let v = sign_message(&[Signer::new(1, 1, "o")], false, |_, f, _| {
        assert_eq!(f, 0);
        (1, 0)
    }, |_, _, _, _| panic!("no fill"), || 0)
    .unwrap();
    assert!(v.is_empty());
    assert_eq!(sign_message(&[Signer::new(1, 1, "o")], false, |_, _, _| (0, 0), |_, _, b, _| (1, b, 0), || 0x80091008).unwrap_err().code(), 0x80091008);
}

#[test]
fn verify_signature_returns_content_and_signer() {
    let r = verify_signature(|_| (1, 5), |mut b, s| {
        assert_eq!(s, 5);
        b[..5].copy_from_slice(b"Hello");
        (1, b, 5, 0x99)
    }, || 0)
    .unwrap();
    assert_eq!(r.content, b"Hello".to_vec());
    assert_eq!(r.signer_cert, Some(0x99));
    let r = verify_signature(|_| (1, 0), |b, _| (1, b, 0, 0), || 0).unwrap();
    assert!(r.content.is_empty());
    assert_eq!(r.signer_cert, None);
    assert_eq!(verify_signature(|_| (1, 3), |b, _| (0, b, 0, 0), || 0x8009200C).unwrap_err().code(), 0x8009200C);
}

#[test]
fn encrypt_and_decrypt_messages() {
    assert_eq!(encrypt_message(0, |_| panic!("no call"), |b, _| (1, b, 0), || 0).unwrap_err().code(), 0x57);
    let v = encrypt_message(1, |_| (1, 4), |mut b, _| {
        b.copy_from_slice(&[1, 2, 3, 4]);
        (1, b, 3)
    }, || 0)
    .unwrap();
    assert_eq!(v, vec![1, 2, 3]);
    let v = decrypt_message(|_| (1, 2), |mut b, _| {
        b[0] = 5;
        b[1] = 6;
        (1, b, 2)
    }, || 0)
    .unwrap();
    assert_eq!(v, vec![5, 6]);
    let e = encrypt_and_sign_message(7, 1, "o", 0, |_, _, _| panic!("no call"), |_, _, b, _| (1, b, 0), || 0).unwrap_err();
    assert_eq!(e.code(), 0x57);
    let e = encrypt_and_sign_message(7, 1, "o\0", 2, |_, _, _| panic!("no call"), |_, _, b, _| (1, b, 0), || 0).unwrap_err();
    assert_eq!(e.code(), 0x57);
    let v = encrypt_and_sign_message(7, 1, "o", 2, |ps, f, _| {
        assert_eq!((ps.len(), ps[0].cert, ps[0].key_spec, f), (1, 7, 1, 0));
        assert_eq!(ps[0].hash_oid, b"o\0".to_vec());
        (1, 1)
    }, |_, _, mut b, _| {
        b[0] = 9;
        (1, b, 1)
    }, || 0)
    .unwrap();
    assert_eq!(v, vec![9]);
}

#[test]
fn x500_name_and_self_signed() {
    let der = encode_x500_name("CN=Example", |c, f, _| {
        assert_eq!(c, &b"CN=Example\0".to_vec());
        assert_eq!(f, CERT_X500_NAME_STR);
        (1, 3)
    }, |_, _, mut b, _| {
        b.copy_from_slice(&[0x30, 0x01, 0x00]);
        (1, b, 3)
    }, || 0)
    .unwrap();
    assert_eq!(der, vec![0x30, 0x01, 0x00]);
    let prov = Provider::acquire_system(80, 0, |_, _, _, _| (1, 0x42), || 0).unwrap();
    let now = system_time_from_unix_secs(1_700_000_000);
    let ctx = create_self_signed(&prov, &der, Ok("box".to_string()), 1, "1.2.643.7.1.1.2.2", now, 5, |h, n, w, t, k, o, start, end| {
        assert_eq!((h, n.len(), t, k), (0x42, 3, 80, 1));
        assert_eq!(w, &vec![b'b' as u16, b'o' as u16, b'x' as u16, 0]);
        assert_eq!(o.last(), Some(&0));
        assert_eq!(start.w_year, 2023);
        assert_eq!((end.w_year, end.w_month, end.w_day), (2028, 11, 14));
        0x1000
    }, || 0)
    .unwrap();
    assert_eq!(ctx, 0x1000);
    let e = create_self_signed(&prov, &der, Err(CpcspError::from_raw(1)), 1, "h", now, 1, |_, _, w, _, _, _, _, _| {
        assert_eq!(w, &vec![0u16]);
        0
    }, || 0x8009000F)
    .unwrap_err();
    assert_eq!(e.code(), 0x8009000F);
    let e = create_self_signed(&prov, &der, Ok(String::new()), 1, "h\0", now, 1, |_, _, _, _, _, _, _, _| panic!("no call"), || 0).unwrap_err();
    assert_eq!(e.code(), 0x57);
}

#[test]
fn certificate_time_and_extensions() {
    assert_eq!(verify_time(0, |_| panic!("no call")).unwrap_err().code(), 0x57);
    // the CSP reports 1 for an expired certificate: expired is negative
    assert_eq!(verify_time(0x10, |i| {
        assert_eq!(i, 0x10);
        1
    }).unwrap(), -1);
    // -1 (before the validity period): not yet valid is positive
    assert_eq!(verify_time(0x10, |_| -1).unwrap(), 1);
    assert_eq!(verify_time(0x10, |_| 0).unwrap(), 0);
    assert_eq!(verify_time(0x10, |_| i32::MIN).unwrap(), i32::MAX);
    assert_eq!(find_extension("2.5.29.19", 0, 1, 1, |_, _, _| panic!("no call")), None);
    assert_eq!(find_extension("2.5.29.19", 1, 0, 1, |_, _, _| panic!("no call")), None);
    assert_eq!(find_extension("2.5.29.19", 1, 1, 0, |_, _, _| panic!("no call")), None);
    assert_eq!(find_extension("2.5\0", 1, 1, 1, |_, _, _| panic!("no call")), None);
    assert_eq!(find_extension("2.5.29.19", 1, 2, 3, |c, n, a| {
        assert_eq!((c.len(), n, a), (10, 2, 3));
        0x77
    }), Some(0x77));
    assert_eq!(find_extension("2.5.29.19", 1, 2, 3, |_, _, _| 0), None);
}

#[test]
fn handles_null_means_failure() {
    assert_eq!(check_handle(5, || panic!("not read")).unwrap(), 5);
    assert_eq!(check_handle(0, || 0x6).unwrap_err().code(), 0x6);
}

#[test]
fn simple_name_reads_buffer() {
    assert_eq!(simple_name(0, |_, _, _| panic!("no call")), None);
    let name = simple_name(0x20, |i, mut b, n| {
        assert_eq!((i, n, b.len()), (0x20, NAME_BUFFER_LEN, 256));
        b[..7].copy_from_slice(b"Example");
        (8, b)
    });
    assert_eq!(name, Some("Example".to_string()));
    assert_eq!(simple_name(0x20, |_, b, _| (0, b)), None);
}
