use mqi::strings::{EncodedString, FromStringCcsidError, StrCcsid, StrCcsidOwned, StringCcsid, NATIVE_IS_LE};

#[test]
fn strccsidcow() {
    let basic_owned: StrCcsidOwned = StringCcsid::from_str_owned("Hello");
    let basic_ref: StrCcsid = StringCcsid::from_str("Hello");
    assert!(
        basic_owned.clone().try_into_string().is_ok(),
        "Convert must be successful when CCSID = 1208"
    );
    assert!(basic_ref.try_into_str().is_ok(), "Convert must be successful from ref");

    let non_utf8: StrCcsid = StringCcsid::new(b"Hello".as_slice(), Some(450), NATIVE_IS_LE);
    assert!(non_utf8.try_into_str().is_err(), "Convert must fail when CCSID != 1208");
    let non_utf8_owned = StringCcsid::from_vec(b"Hello".to_vec(), Some(450));
    assert!(non_utf8_owned.try_into_string().is_err(), "Convert must fail when CCSID != 1208");

    assert!(basic_owned.try_into_string().is_ok(), "Convert from owned to owned");
}

#[test]
fn string_ccsid_errors() {
    let bad = StringCcsid::from_vec(vec![0xFF, 0xFE], Some(1208));
    assert!(matches!(bad.try_into_string(), Err(FromStringCcsidError::Utf8Convert(_))));
    let other = StringCcsid::from_vec(b"abc".to_vec(), Some(37));
    match other.try_into_string() {
        Err(FromStringCcsidError::NonUtf8Ccsid(e)) => {
            assert_eq!(e.str.ccsid, Some(37));
            assert_eq!(e.str.data, b"abc");
        },
        _ => panic!("expected a CCSID error"),
    }
    assert_eq!(StringCcsid::from_vec(b"abc".to_vec(), Some(1208)).try_into_string().unwrap(), "abc");
}

#[test]
fn encoded_string_of_str() {
    let s = "héllo";
    assert_eq!(s.ccsid(), Some(1208));
    assert_eq!(s.data(), "héllo".as_bytes());
    assert!(NATIVE_IS_LE);
}
