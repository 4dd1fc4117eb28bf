use mqi::inq::{inq_lengths, InqReqItem, InqRes, InqResItem};
use mqi::values::{MqValue, MQXA};

fn inq_selector(v: i32) -> MqValue<MQXA> {
    MqValue::<MQXA>::from(v)
}

#[test]
fn inquiry_values_in_order() {
    let select = vec![(inq_selector(2016), InqReqItem::Str(8)), (inq_selector(3), InqReqItem::Long), (inq_selector(2017), InqReqItem::Str(3))];
    let (selectors, text, longs) = inq_lengths(&select);
    assert_eq!(selectors.len(), 3);
    assert_eq!(text, 11);
    assert_eq!(longs, 1);

    let res = InqRes { strings: b"QNAME   ABC".to_vec(), longs: vec![5], select };
    let items = res.iter_mqchar();
    assert_eq!(items.len(), 3);
    assert!(matches!(items[0], (s, InqResItem::Str(b"QNAME   "))if s.value == 2016));
    assert!(matches!(items[1], (s, InqResItem::Long(5)) if s.value == 3));
    assert!(matches!(items[2], (s, InqResItem::Str(b"ABC")) if s.value == 2017));
}
