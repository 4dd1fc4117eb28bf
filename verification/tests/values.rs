use mqi::values::{hex_string, hex_string_8, BagHandle, MqMask, MQCO};

#[test]
fn bag_handle_display() {
    assert_eq!(BagHandle::default().display_string(), "HBAG(MQHB_UNUSABLE_HBAG)");
    assert_eq!(BagHandle::from(1).display_string(), "HBAG(0x00000001)");
}

#[test]
fn definition_close_option() {
    assert_eq!(MqMask::<MQCO>::from(1 | 0xFF00).display_string(), "MQCO_DELETE|0xFF00");
    assert_eq!(MqMask::<MQCO>::from(1 | 32).display_string(), "MQCO_DELETE|MQCO_QUIESCE");
    assert_eq!(MqMask::<MQCO>::from(1).display_string(), "MQCO_DELETE");
    assert_eq!(MqMask::<MQCO>::from(0).display_string(), "MQCO_NONE");
    assert_eq!(MqMask::<MQCO>::from(0xFF00).display_string(), "0xFF00");

    let (list, _) = MqMask::<MQCO>::from(1).masked_list();
    assert_eq!(list, &[(1, "MQCO_DELETE")]);

    let (list, _) = MqMask::<MQCO>::from(0).masked_list();
    assert_eq!(list, &[]);

    let (list, _) = MqMask::<MQCO>::from(1 | 32).masked_list();
    assert_eq!(list, &[(1, "MQCO_DELETE"), (32, "MQCO_QUIESCE")]);
}

#[test]
fn bag_handles() {
    assert!(!BagHandle::default().is_deletable());
    assert!(!BagHandle::from(-2).is_deletable());
    assert!(BagHandle::from(7).is_deletable());
    assert_eq!(BagHandle::from(-2).display_string(), "HBAG(MQHB_NONE)");
    assert_eq!(BagHandle::from(-3).display_string(), "HBAG(0xFFFFFFFD)");
}

#[test]
fn hex_forms() {
    assert_eq!(hex_string(0), "0x0");
    assert_eq!(hex_string(0xFF00), "0xFF00");
    assert_eq!(hex_string(-1), "0xFFFFFFFF");
    assert_eq!(hex_string_8(0xAB), "0x000000AB");
}

#[test]
fn mask_insert_contains() {
    let mut m = MqMask::<MQCO>::from(1);
    m.insert(32);
    assert!(m.contains(32));
    assert!(m.contains(1));
    assert!(m.contains(33));
    assert!(!m.contains(2));
    assert_eq!(m.value, 33);
}
