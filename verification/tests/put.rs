use mqi::put::{NewProperties, PropertyAction};
use mqi::get_options::Mqmd2;
use mqi::put::{put_appl_origin_data, put_correlation_id, put_group_id, put_param, Context, PutMessage, ReportOptions};
use mqi::types::{mqfmt_none, mqfmt_string, CorrelationId, MessageFormat};
use mqi::values::{MqMask, MQPMO};
use mqi::headers::TextEnc;

#[test]
fn put_parameters() {
    let p = put_param(&(MqMask::<MQPMO>::from(4), ReportOptions(64)), "hello");
    assert_eq!(p.pmo.struc.version, 3);
    assert_eq!(p.pmo.struc.options, 4);
    assert_eq!(p.md.struc.report, 64);
    assert_eq!(p.md.struc.coded_char_set_id, 1208);
    assert_eq!(p.md.struc.format, mqfmt_string());

    let bytes: &[u8] = b"abc";
    let p = put_param(&Context(9i32), bytes);
    assert_eq!(p.md.struc.format, mqfmt_none());
    assert_eq!(p.pmo.struc.context, 9);

    let fmt = MessageFormat { ccsid: 37, encoding: 785, fmt: TextEnc::Ebcdic([0xD4, 0xD8, 0xE2, 0xE3, 0xD9, 0x40, 0x40, 0x40]) };
    let msg = (b"x".to_vec(), fmt);
    assert_eq!(msg.render(), b"x");
    let p = put_param(&(), &msg);
    assert_eq!(p.md.struc.coded_char_set_id, 37);
    assert_eq!(p.md.struc.encoding, 785);
    assert_eq!(p.md.struc.format, mqfmt_string());
}

#[test]
fn put_results() {
    let mut md = Mqmd2::default_value();
    assert!(put_correlation_id(&md).is_none());
    assert!(put_group_id(&md).is_none());
    assert!(put_appl_origin_data(&md).is_none());
    md.correl_id[3] = 9;
    assert!(matches!(put_correlation_id(&md), Some(CorrelationId(id)) if id[3] == 9));
}

#[test]
fn property_action() {
    let p = put_param(&PropertyAction::Reply(0xf0f0, 0x0e0e), "x");
    assert_eq!(p.pmo.struc.version, 3);
    assert_eq!(p.pmo.struc.action, 2);
    assert_eq!(p.pmo.struc.original_msg_handle, 0xf0f0);
    assert_eq!(p.pmo.struc.new_msg_handle, 0x0e0e);
    let p = put_param(&PropertyAction::Forward(1, 2), "x");
    assert_eq!(p.pmo.struc.action, 1);
    let p = put_param(&PropertyAction::Report(1, 2), "x");
    assert_eq!(p.pmo.struc.action, 3);
    assert_eq!(p.pmo.struc.original_msg_handle, 1);
    let p = put_param(&NewProperties(7), "x");
    assert_eq!(p.pmo.struc.action, 0);
    assert_eq!(p.pmo.struc.original_msg_handle, 7);
    assert_eq!(p.pmo.struc.new_msg_handle, 0);
}
