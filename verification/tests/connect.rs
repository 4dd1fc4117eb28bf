use mqi::connect::ConnTag;
use mqi::connect_options::{Ccdt, ConnectOption, MqServer};

#[test]
fn connection_tag_text() {
    let mut tag = [0u8; 128];
    assert_eq!(ConnTag(tag).text(), None);
    tag[..5].copy_from_slice(b"MQCT1");
    assert_eq!(ConnTag(tag).text().as_deref(), Some("MQCT1"));
    tag[5] = 0xff;
    assert_eq!(ConnTag(tag).text().as_deref(), Some("MQCT1\u{fffd}"));
    let full = [b'A'; 128];
    assert_eq!(ConnTag(full).text().map(|t| t.len()), Some(128));
}

#[test]
fn option_applicability() {
    assert!(Ccdt("file:///ccdt.json").applicable());
    assert!(().applicable());
    let server = MqServer::try_from("SVRCONN/TCP/host(1414)").unwrap();
    assert!(server.applicable());
    assert!((server, ()).applicable());
}
