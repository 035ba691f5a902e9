use cpcsp::provider::{trim_cstr, Provider};
use cpcsp::raw_constants::{CRYPT_NEWKEYSET, CRYPT_VERIFYCONTEXT, PP_CONTAINER, PP_NAME, PROV_GOST_2012_256};

#[test]
fn test_provider_acquire_system() {
    let prov = Provider::acquire_system(
        PROV_GOST_2012_256,
        CRYPT_VERIFYCONTEXT,
        |c, p, t, f| {
            assert!(c.is_none() && p.is_none());
            assert_eq!((t, f), (PROV_GOST_2012_256, CRYPT_VERIFYCONTEXT));
            (1, 0x5A5A)
        },
        || 0,
    );
    assert!(prov.is_ok(), "acquire_system failed: {:?}", prov.err());
    let prov = prov.unwrap();
    assert!(prov.is_valid());
    assert_eq!(prov.provider_type(), PROV_GOST_2012_256);
    drop(prov);
}

#[test]
fn test_provider_debug() {
    let prov = Provider::acquire_system(PROV_GOST_2012_256, CRYPT_VERIFYCONTEXT, |_, _, _, _| (1, 0x1F), || 0)
        .unwrap();
    let debug_str = prov.describe();
    assert!(debug_str.contains("Provider"));
    assert!(debug_str.contains("0x"));
    assert_eq!(debug_str, "Provider(type=80, handle=0x1F)");
}

#[test]
fn acquire_passes_names_as_c_strings() {
    let prov = Provider::acquire(
        Some("Box"),
        None,
        PROV_GOST_2012_256,
        0,
        |c, p, _, _| {
            assert_eq!(c.unwrap(), &vec![b'B', b'o', b'x', 0]);
            assert!(p.is_none());
            (1, 9)
        },
        || 0,
    )
    .unwrap();
    assert_eq!(prov.raw_handle(), 9);
}

#[test]
fn acquire_failure_reports_last_error() {
    let r = Provider::acquire_system(PROV_GOST_2012_256, 0, |_, _, _, _| (0, 0), || 0x8009_0016);
    assert_eq!(r.unwrap_err().code(), 0x8009_0016);
}

#[test]
fn take_handle_leaves_null() {
    let mut prov = Provider::acquire_system(PROV_GOST_2012_256, 0, |_, _, _, _| (1, 77), || 0).unwrap();
    assert_eq!(prov.take_handle(), 77);
    assert!(!prov.is_valid());
    assert_eq!(prov.take_handle(), 0);
}

#[test]
fn container_and_provider_names() {
    let prov = Provider::acquire_system(PROV_GOST_2012_256, 0, |_, _, _, _| (1, 3), || 0).unwrap();
    let name = prov
        .container_name(
            |h, p, _| {
                assert_eq!((h, p), (3, PP_CONTAINER));
                (1, 8)
            },
            |_, _, mut b, n| {
                assert_eq!(n, 8);
                b[..4].copy_from_slice(b"key1");
                (1, b, 6)
            },
            || 0,
        )
        .unwrap();
    assert_eq!(name, "key1");
    let pname = prov
        .provider_name(
            |_, p, _| {
                assert_eq!(p, PP_NAME);
                (1, 0)
            },
            |_, _, b, _| (1, b, 0),
            || 0,
        )
        .unwrap();
    assert_eq!(pname, "");
}

#[test]
fn get_param_errors() {
    let prov = Provider::acquire_system(PROV_GOST_2012_256, 0, |_, _, _, _| (1, 3), || 0).unwrap();
    let e = prov.get_param(1, |_, _, _| (0, 0), |_, _, b, _| (1, b, 0), || 5).unwrap_err();
    assert_eq!(e.code(), 5);
    let e = prov.get_param(1, |_, _, _| (1, 4), |_, _, b, _| (0, b, 0), || 6).unwrap_err();
    assert_eq!(e.code(), 6);
    let v = prov.get_param(1, |_, _, _| (1, 4), |_, _, mut b, _| {
        b[0] = 7;
        (1, b, 2)
    }, || 0).unwrap();
    assert_eq!(v, vec![7, 0]);
}

#[test]
fn gen_random_fills_requested_length() {
    let prov = Provider::acquire_system(PROV_GOST_2012_256, 0, |_, _, _, _| (1, 3), || 0).unwrap();
    assert_eq!(prov.gen_random(0, |_, _, _| panic!("no call for zero bytes"), || 0).unwrap(), Vec::<u8>::new());
    let v = prov
        .gen_random(4, |h, n, b| {
            assert_eq!((h, n, b.len()), (3, 4, 4));
            (1, vec![1, 2, 3, 4])
        }, || 0)
        .unwrap();
    assert_eq!(v, vec![1, 2, 3, 4]);
    assert_eq!(prov.gen_random(2, |_, _, b| (0, b), || 0x57).unwrap_err().code(), 0x57);
}

#[test]
fn trim_cstr_drops_trailing_zeros() {
    assert_eq!(trim_cstr(vec![b'a', b'b', 0, 0]).unwrap(), "ab");
    assert_eq!(trim_cstr(vec![0, b'a']).unwrap(), "\0a");
    assert_eq!(trim_cstr(vec![0xFF, 0]).unwrap_err().code(), 0x57);
}

#[test]
fn test_provider_acquire_with_container() {
    let prov = Provider::acquire(
        Some("TestContainer_Rust"),
        None,
        PROV_GOST_2012_256,
        CRYPT_VERIFYCONTEXT | CRYPT_NEWKEYSET,
        |c, p, t, f| {
            assert_eq!(c.unwrap(), &b"TestContainer_Rust\0".to_vec());
            assert!(p.is_none());
            assert_eq!((t, f), (PROV_GOST_2012_256, CRYPT_VERIFYCONTEXT | CRYPT_NEWKEYSET));
            (1, 0x77)
        },
        || 0,
    );
    if let Ok(prov) = prov {
        assert!(prov.is_valid());
        drop(prov);
    }
}
