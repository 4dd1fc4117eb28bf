use mqi::headers::TextEnc;
use mqi::types::{mqfmt_string, CorrelationId, MessageFormat, MessageId};

#[test]
fn correlation_id() {
    let cid = CorrelationId([0; 24]);
    assert_eq!(cid.display_string(), "ID:000000000000000000000000000000000000000000000000");
    assert_eq!(
        cid.debug_string(),
        "CorrelationId(ID:000000000000000000000000000000000000000000000000)"
    );
}

#[test]
fn message_id_hex_digits() {
    let mut id = [0u8; 24];
    id[0] = 0xAB;
    id[23] = 0x01;
    let mid = MessageId(id);
    assert_eq!(mid.display_string(), "ID:ab0000000000000000000000000000000000000000000001");
}

#[test]
fn format_descriptor_round_trip() {
    let f = MessageFormat { ccsid: 819, encoding: 273, fmt: TextEnc::Ascii(mqfmt_string()) };
    let md = f.into_mqmd2();
    assert_eq!(md.coded_char_set_id, 819);
    assert_eq!(md.encoding, 273);
    assert_eq!(md.format, mqfmt_string());
    assert_eq!(md.version, 2);
    assert_eq!(md.msg_type, 8);
    let back = MessageFormat::from_mqmd2(&md);
    assert_eq!(back.ccsid, 819);
    assert_eq!(back.encoding, 273);
    assert!(matches!(back.fmt, TextEnc::Ascii(n) if n == mqfmt_string()));

    // An EBCDIC name comes back in ASCII
    let e = MessageFormat { ccsid: 37, encoding: 785, fmt: TextEnc::Ebcdic([0xD4, 0xD8, 0xE2, 0xE3, 0xD9, 0x40, 0x40, 0x40]) };
    let back = MessageFormat::from_mqmd2(&e.into_mqmd2());
    assert!(matches!(back.fmt, TextEnc::Ascii(n) if n == mqfmt_string()));
}
