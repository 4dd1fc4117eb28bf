use mqi::mqstr::MqStr;
use mqi::open::{
    open_param, opened_names, request_res_object_string, request_resolved_names, request_resolved_type,
    resolved_object_string, resolved_queue_manager_name, resolved_queue_name, AlternateUserId, ObjectString,
    SelectionString,
};
use mqi::structs::Mqod;
use mqi::types::{QueueManagerName, QueueName};
use mqi::values::{MqMask, MQOO};

#[test]
fn open_parameters() {
    let q = QueueName(MqStr::from_str("DEV.QUEUE.1").unwrap());
    let p = open_param(&(q, MqMask::<MQOO>::from(16), AlternateUserId(MqStr::from_str("app").unwrap())));
    assert_eq!(p.mqod.struc.object_type, 1);
    assert_eq!(p.mqod.struc.object_name.as_bytes(), MqStr::<48>::from_str("DEV.QUEUE.1").unwrap().as_bytes());
    assert_eq!(p.options.value, 16 | 4096);
    assert_eq!(p.mqod.struc.version, 3);

    let topic = "sports/football";
    let p = open_param(&(ObjectString(topic), SelectionString("x > 1")));
    assert_eq!(p.mqod.struc.object_type, 8);
    assert_eq!(p.mqod.struc.version, 4);
    assert_eq!(p.mqod.struc.object_string.vs.unwrap(), topic.as_bytes());
    assert_eq!(p.mqod.struc.selection_string.vs_length, 5);

    let qm = QueueManagerName(MqStr::from_str("QM1").unwrap());
    let p = open_param(&qm);
    assert_eq!(p.mqod.struc.object_type, 5);
}

#[test]
fn resolved_names() {
    let mut od = Mqod::default_value();
    assert!(resolved_queue_name(&od).is_none());
    assert!(resolved_queue_manager_name(&od).is_none());
    od.resolved_q_name = MqStr::from_str("REAL.Q").unwrap();
    assert!(resolved_queue_name(&od).is_some());
    let names = opened_names(&od);
    assert!(names.resolved_name.is_some());
    assert!(names.qmgr_name.is_none());

    assert!(resolved_object_string(Vec::new(), 1208).is_none());
    let s = resolved_object_string(b"a/b".to_vec(), 0).unwrap();
    assert_eq!(s.0.data, b"a/b");
    assert_eq!(s.0.ccsid, None);
}

#[test]
fn resolved_requests() {
    let mut p = open_param(&());
    request_resolved_names(&mut p);
    assert_eq!(p.mqod.struc.version, 3);
    request_resolved_type(&mut p);
    assert_eq!(p.mqod.struc.version, 4);
    assert_eq!(request_res_object_string(&mut p), 4096);
    p.mqod.struc.res_object_string.vs_buf_size = 100;
    assert_eq!(request_res_object_string(&mut p), 100);
}
