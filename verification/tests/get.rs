use mqi::constants::{MQENC_NATIVE, MQGMO_CONVERT, MQGMO_WAIT, MQRL_UNDEFINED};
use mqi::get::GetState;
use mqi::get_options::{
    get_lengths, get_param, get_state, is_no_msg_available, string_ccsid_from_state, string_from_state,
    GetConvert, GetStringCcsidError, GetStringError, GetWait, MatchOptions, Mqmd2,
};
use mqi::headers::TextEnc;
use mqi::types::{format_none, mqfmt_string, CorrelationId, MessageFormat, MessageId};

fn string_format(ccsid: i32) -> MessageFormat {
    MessageFormat { ccsid, encoding: MQENC_NATIVE, fmt: TextEnc::Ascii(mqfmt_string()) }
}

#[test]
fn get_value_strccsdcow() {
    let state = GetState { buffer: Vec::new(), data_length: 0, message_length: 0, format: string_format(1208) };
    let result = string_ccsid_from_state(state).unwrap();
    assert_eq!(result.ccsid, Some(1208));
    assert_eq!(result.data, Vec::<u8>::new());
}

#[test]
fn string_states() {
    let state = GetState { buffer: b"hello!!".to_vec(), data_length: 5, message_length: 9, format: string_format(1208) };
    assert_eq!(string_from_state(&state, None).unwrap(), "hello");
    assert!(matches!(string_from_state(&state, Some(2119)), Err(GetStringError::Mq(1, 2119))));

    let bad = GetState { buffer: vec![0xff, 0xfe], data_length: 2, message_length: 2, format: string_format(1208) };
    assert!(matches!(string_from_state(&bad, None), Err(GetStringError::Utf8Parse(_))));

    let other = GetState { buffer: b"x".to_vec(), data_length: 1, message_length: 1, format: string_format(819) };
    assert!(matches!(string_from_state(&other, None), Err(GetStringError::UnexpectedFormat(_, 819))));

    let none = GetState { buffer: b"x".to_vec(), data_length: 1, message_length: 1, format: format_none() };
    assert!(matches!(string_ccsid_from_state(none), Err(GetStringCcsidError::UnexpectedFormat(_))));
}

#[test]
fn get_parameters() {
    let correl = CorrelationId([7; 24]);
    let p = get_param(&(GetWait::Wait(500), GetConvert::Convert, correl));
    assert_ne!(p.gmo.struc.options & MQGMO_WAIT, 0);
    assert_ne!(p.gmo.struc.options & MQGMO_CONVERT, 0);
    assert_eq!(p.gmo.struc.wait_interval, 500);
    assert_eq!(p.md.struc.correl_id, [7; 24]);

    let msg_id = MessageId([1; 24]);
    let mut m = MatchOptions::any_message();
    m.msg_id = Some(&msg_id);
    let p = get_param(&m);
    assert_eq!(p.md.struc.msg_id, [1; 24]);
    assert_eq!(p.gmo.struc.match_options, 1);
}

#[test]
fn lengths_and_state() {
    assert_eq!(get_lengths(100, MQRL_UNDEFINED, 40), (100, 40));
    assert_eq!(get_lengths(10, MQRL_UNDEFINED, 40), (10, 10));
    assert_eq!(get_lengths(100, 60, 40), (100, 60));
    assert!(is_no_msg_available(2, 2033));
    assert!(!is_no_msg_available(1, 2033));

    let mut md = Mqmd2::default_value();
    md.coded_char_set_id = 1208;
    md.format = mqfmt_string();
    let s = get_state(vec![1u8, 2, 3], 3, 3, &md);
    assert_eq!(s.format.ccsid, 1208);
    assert_eq!(s.data_length, 3);
    assert!(matches!(s.format.fmt, TextEnc::Ascii(f) if f == mqfmt_string()));
}
