use mqi::bag::{BagDrop, Embedded, InqSelect, Owned};
use mqi::values::{BagHandle, MqValue, MQXA};

#[test]
fn bag_selection() {
    let s = MqValue::<MQXA>::from(1001);
    assert_eq!(s.selector().value, 1001);
    assert_eq!(s.index(), None);
    let t = (s, 3);
    assert_eq!(t.selector().value, 1001);
    assert_eq!(t.index(), Some(3));
}

#[test]
fn bag_disposal() {
    assert!(Owned::deletes(BagHandle::from(5)));
    assert!(!Owned::deletes(BagHandle::from(-1)));
    assert!(!Owned::deletes(BagHandle::from(-2)));
    assert!(!Embedded::deletes(BagHandle::from(5)));
}

