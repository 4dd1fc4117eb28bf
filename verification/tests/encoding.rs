use mqi::encoding::{ascii7_ebcdic, ccsid_lookup, ebcdic_ascii7, is_ebcdic};

#[test]
fn ccsid_lookup_all() {
    assert!(ccsid_lookup(1).is_none());
    assert!(ccsid_lookup(3000).is_none());
    assert!(ccsid_lookup(37).is_some_and(|(.., name)| name == "IBM-037"));
    assert!(ccsid_lookup(8612).is_some_and(|(.., name)| name == "IBM-8612"));
}

#[test]
fn is_ebcdic_all() {
    assert!(is_ebcdic(1).is_none());
    assert!(is_ebcdic(37).is_some_and(|ebcdic| ebcdic));
    assert!(is_ebcdic(1208).is_some_and(|ebcdic| !ebcdic));
}

#[test]
fn ascii7_ebcdic_round_trip() {
    let ascii = b"MQHRF2  ".to_vec();
    let ebcdic = ascii7_ebcdic(&ascii);
    assert_eq!(ebcdic, vec![0xD4, 0xD8, 0xC8, 0xD9, 0xC6, 0xF2, 0x40, 0x40]);
    assert_eq!(ebcdic_ascii7(&ebcdic), ascii);
}
