use mqi::get::{GetState, Headers};
use mqi::headers::{chain_is_safe, next_header, Header, HeaderError, HeaderIter, HeaderKind, TextEnc};
use mqi::types::{mqfmt_string, MessageFormat};

const MQENC_NATIVE: i32 = 0x222;

fn fmt_ebcdic(name: &[u8; 8]) -> TextEnc<[u8; 8]> {
    TextEnc::Ascii(*name).into_ebcdic()
}

fn next_dead() -> MessageFormat {
    MessageFormat { ccsid: 1208, encoding: MQENC_NATIVE, fmt: fmt_ebcdic(b"MQDEAD  ") }
}

fn next_rfh2() -> MessageFormat {
    MessageFormat { ccsid: 1208, encoding: MQENC_NATIVE, fmt: fmt_ebcdic(b"MQHRF2  ") }
}

fn next_string() -> MessageFormat {
    MessageFormat { ccsid: 1208, encoding: MQENC_NATIVE, fmt: TextEnc::Ascii(*b"MQSTR   ") }
}

/// The bytes of a default dead letter header (`MQDLH`), with a format, CCSID and encoding.
fn dlh_bytes(format: &[u8; 8], ccsid: i32, encoding: i32) -> Vec<u8> {
    let mut d = Vec::new();
    d.extend_from_slice(b"DLH ");
    d.extend_from_slice(&1i32.to_le_bytes());
    d.extend_from_slice(&0i32.to_le_bytes());
    d.extend_from_slice(&[0u8; 96]);
    d.extend_from_slice(&encoding.to_le_bytes());
    d.extend_from_slice(&ccsid.to_le_bytes());
    d.extend_from_slice(format);
    d.extend_from_slice(&0i32.to_le_bytes());
    d.extend_from_slice(&[0u8; 44]);
    assert_eq!(d.len(), 172);
    d
}

/// The bytes of a default rules and formatting header version 2 (`MQRFH2`).
fn rfh2_bytes() -> Vec<u8> {
    let mut d = Vec::new();
    d.extend_from_slice(b"RFH ");
    d.extend_from_slice(&2i32.to_le_bytes());
    d.extend_from_slice(&36i32.to_le_bytes());
    d.extend_from_slice(&MQENC_NATIVE.to_le_bytes());
    d.extend_from_slice(&(-2i32).to_le_bytes());
    d.extend_from_slice(b"        ");
    d.extend_from_slice(&0i32.to_le_bytes());
    d.extend_from_slice(&1208i32.to_le_bytes());
    assert_eq!(d.len(), 36);
    d
}

#[test]
pub fn not_header() {
    let header = next_header(b"X", &next_string());
    assert!(matches!(header, Ok(None)));
}

#[test]
pub fn too_short() {
    let header = next_header(b"X", &next_dead());
    assert!(matches!(header, Err(HeaderError::DataTruncated(_, 1))));
}

#[test]
pub fn dlh() {
    let dlh = dlh_bytes(b"        ", 0, MQENC_NATIVE);
    let header = next_header(dlh.as_slice(), &next_dead());
    assert!(matches!(header, Ok(Some((Header::Dlh(_), ..)))));
}

#[test]
pub fn rfh2() {
    let rfh2_data = rfh2_bytes();
    let header = next_header(rfh2_data.as_slice(), &next_rfh2());
    assert!(matches!(header, Ok(Some((Header::Rfh2(_), ..)))));
}

#[test]
pub fn header_iter() {
    let mut data = dlh_bytes(b"MQHRF2  ", 1208, MQENC_NATIVE);
    data.extend_from_slice(&rfh2_bytes());
    let mut headers: HeaderIter = Header::iter(
        data.as_slice(),
        MessageFormat { ccsid: 1208, encoding: MQENC_NATIVE, fmt: TextEnc::Ascii(*b"MQDEAD  ") },
    );
    let mut headers_vec = Vec::new();
    while let Some(item) = headers.next() {
        headers_vec.push(item);
    }
    assert!(matches!(headers_vec[0], Ok((Header::Dlh(_), ..))));
    assert!(matches!(headers_vec[1], Ok((Header::Rfh2(_), ..))));
    assert_eq!(headers_vec.len(), 2);
}

#[test]
pub fn header_lengths_and_next_format() {
    let mut data = dlh_bytes(b"MQHRF2  ", 1208, MQENC_NATIVE);
    data.extend_from_slice(&rfh2_bytes());
    data.extend_from_slice(b"payload");
    let first = next_header(data.as_slice(), &next_dead()).unwrap().unwrap();
    assert_eq!(first.2, 172);
    assert_eq!(first.1.len(), 36 + 7);
    assert_eq!(first.3.ccsid, 1208);
    let second = next_header(first.1, &first.3).unwrap().unwrap();
    assert_eq!(second.2, 36);
    assert_eq!(second.1, b"payload");
    // The RFH2 names MQCCSI_INHERIT (-2) as the CCSID of what follows; only 0 takes the
    // CCSID of the header itself.
    assert_eq!(second.3.ccsid, -2);
}

#[test]
pub fn wrong_struc_id() {
    let mut dlh = dlh_bytes(b"        ", 0, MQENC_NATIVE);
    dlh[0] = b'X';
    let header = next_header(dlh.as_slice(), &next_dead());
    assert!(matches!(header, Err(HeaderError::UnexpectedStruc(id)) if &id == b"XLH "));
}

#[test]
pub fn malformed_rfh2_length() {
    let mut rfh2 = rfh2_bytes();
    rfh2[8..12].copy_from_slice(&37i32.to_le_bytes());
    let header = next_header(rfh2.as_slice(), &next_rfh2());
    assert!(matches!(header, Err(HeaderError::MalformedLength(37))));
}

#[test]
fn text_eq_across_families() {
    let ascii = TextEnc::Ascii(mqfmt_string());
    let ebcdic = ascii.into_ebcdic();
    assert!(ascii.text_eq(&ebcdic));
    assert!(ebcdic.text_eq(&ascii));
    assert!(ascii.text_eq(&ascii));
    assert!(!ascii.text_eq(&TextEnc::Ascii(*b"MQDEAD  ")));
}

#[test]
fn text_display() {
    let ascii = TextEnc::Ascii(mqfmt_string());
    assert_eq!(ascii.display_string(), "MQSTR   ");
    assert_eq!(ascii.into_ebcdic().display_string(), "MQSTR   ");
    assert_eq!(TextEnc::Ascii([0x41, 0xff, 0x42, 0x20, 0x20, 0x20, 0x20, 0x20]).display_string(), "A\u{fffd}B     ");
}

#[test]
fn extracted_header_contents() {
    let mut data = dlh_bytes(b"MQHRF2  ", 1208, MQENC_NATIVE);
    data.extend_from_slice(&rfh2_bytes());
    data.extend_from_slice(b"payload");
    let total = data.len();
    let format = MessageFormat { ccsid: 819, encoding: MQENC_NATIVE, fmt: TextEnc::Ascii(*b"MQDEAD  ") };
    assert!(chain_is_safe(&data, &format));
    let state = GetState { buffer: data.clone(), data_length: total, message_length: total, format };
    let (headers, rest): (Headers, GetState<Vec<u8>>) = Headers::extract_from(state);
    assert_eq!(rest.buffer, b"payload");
    let all = headers.all_headers();
    assert_eq!(all.len(), 2);
    match all[0] {
        Header::Dlh(e) => {
            assert_eq!(e.ccsid, 819);
            assert_eq!(e.raw_header, &data[..172]);
            assert!(e.tail.is_empty());
        }
        other => panic!("unexpected {other:?}"),
    }
    match all[1] {
        Header::Rfh2(e) => {
            assert_eq!(e.ccsid, 1208);
            assert_eq!(e.raw_header, &data[172..208]);
        }
        other => panic!("unexpected {other:?}"),
    }
    let rfh2s = headers.header(HeaderKind::Rfh2);
    assert_eq!(rfh2s.len(), 1);
    assert_eq!(rfh2s[0].raw_header, &data[172..208]);
    match all[1] {
        Header::Rfh2(e) => {
            assert_eq!(rfh2s[0].raw_header, e.raw_header);
            assert_eq!(rfh2s[0].tail, e.tail);
            assert_eq!(rfh2s[0].ccsid, e.ccsid);
            assert_eq!(rfh2s[0].encoding, e.encoding);
        }
        other => panic!("unexpected {other:?}"),
    }
    let dlhs = headers.header(HeaderKind::Dlh);
    assert_eq!(dlhs.len(), 1);
    assert_eq!(dlhs[0].raw_header, &data[..172]);
    assert!(headers.header(HeaderKind::Cih).is_empty());
    assert!(headers.error().is_none());
}

#[test]
fn chain_safety() {
    let dlh = dlh_bytes(b"        ", 0, MQENC_NATIVE);
    let negative = MessageFormat { ccsid: -2, encoding: MQENC_NATIVE, fmt: TextEnc::Ascii(*b"MQDEAD  ") };
    assert!(!chain_is_safe(&dlh, &negative));
    assert!(chain_is_safe(b"text", &next_string()));
    let mut chained = dlh_bytes(b"MQHRF2  ", -2, MQENC_NATIVE);
    chained.extend_from_slice(&rfh2_bytes());
    assert!(!chain_is_safe(&chained, &next_dead()));
}
