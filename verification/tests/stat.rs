use mqi::mqstr::MqStr;
use mqi::stat::{
    stat_put_request, stat_reconnection_error_request, stat_reconnection_request, AsyncPutStat, Mqsts,
    ReconnectionErrorStat, ReconnectionStat,
};

fn sts() -> Mqsts {
    Mqsts {
        comp_code: 0,
        reason: 0,
        put_success_count: 3,
        put_warning_count: 1,
        put_failure_count: 2,
        object_type: 1,
        object_name: MqStr::from_str("Q1").unwrap(),
        object_qmgr_name: MqStr::from_str("QM1").unwrap(),
        resolved_object_name: MqStr::from_str("Q2").unwrap(),
        resolved_qmgr_name: MqStr::from_str("QM2").unwrap(),
        object_string_length: 3,
        object_string_ccsid: 1208,
        sub_name_length: 0,
        sub_name_ccsid: 0,
        open_options: 16,
        sub_options: 4,
    }
}

#[test]
fn async_put_stat() {
    let stat = AsyncPutStat::new(&sts(), b"a/bxxxx".to_vec());
    assert!(stat.warning.is_none());
    assert_eq!(stat.put_success_count, 3);
    assert_eq!(stat.put_failure_count, 2);
    let s = stat.object_string.unwrap();
    assert_eq!(s.data, b"a/b");
    assert_eq!(s.ccsid, Some(1208));
    assert_eq!(stat.resolved_object_name.as_bytes(), MqStr::<48>::from_str("Q2").unwrap().as_bytes());
}

#[test]
fn reconnection_stats() {
    let mut s = sts();
    s.comp_code = 1;
    s.reason = 2009;
    let r = ReconnectionStat::new(&s);
    assert_eq!(r.warning, Some(1));
    assert_eq!(r.reason, 2009);

    let e = ReconnectionErrorStat::new(&s, b"abc".to_vec(), Vec::new());
    assert_eq!(e.object_string.unwrap().data, b"abc");
    assert!(e.sub_name.is_none());
    assert_eq!(e.open_options, 16);
    assert_eq!(e.sub_options, 4);
}

#[test]
fn stat_requests() {
    let p = stat_put_request();
    assert_eq!((p.stat_type, p.version, p.object_string_buf_size, p.sub_name_buf_size), (0, 2, 4096, 0));
    let r = stat_reconnection_request();
    assert_eq!((r.stat_type, r.version, r.object_string_buf_size), (1, 1, 0));
    let e = stat_reconnection_error_request();
    assert_eq!((e.stat_type, e.version, e.object_string_buf_size, e.sub_name_buf_size), (2, 2, 4096, 4096));
}
