use mqi::attribute::{inq_request, AttributeError, AttributeType, AttributeValue, InqResItem, IntItem, MultiItem, TextItem};
use mqi::values::{MqValue, MQXA};

const Q_DEPTH: i32 = 3;
const Q_NAME: i32 = 2016;

fn sel(v: i32) -> MqValue<MQXA> {
    MqValue::<MQXA>::from(v)
}

#[test]
fn pushed_items_read_back() {
    let mut items = MultiItem::new();
    items.push_int_item(&IntItem::new(sel(Q_DEPTH), 7).unwrap());
    let name = AttributeType::new(sel(Q_NAME), 4).text_item(b"QONE").unwrap();
    items.push_text_item(&name);
    items.push_int_item(&IntItem::new(sel(Q_DEPTH + 1), -1).unwrap());
    let text2 = TextItem::new(AttributeType::new(sel(Q_NAME + 1), 2), b"ab").unwrap();
    items.push_text_item(&text2);

    let read = items.iter();
    assert_eq!(read.len(), 4);
    match &read[0] {
        InqResItem::Long(l) => {
            assert_eq!(l.selector.value, Q_DEPTH);
            assert_eq!(l.value, 7);
        }
        other => panic!("unexpected {other:?}"),
    }
    match &read[1] {
        InqResItem::Text(t) => {
            assert_eq!(t.selector.value, Q_NAME);
            assert_eq!(t.value, b"QONE");
        }
        other => panic!("unexpected {other:?}"),
    }
    match &read[2] {
        InqResItem::Long(l) => assert_eq!(l.value, -1),
        other => panic!("unexpected {other:?}"),
    }
    match &read[3] {
        InqResItem::Text(t) => assert_eq!(t.value, b"ab"),
        other => panic!("unexpected {other:?}"),
    }

    match items.into_first() {
        Some(InqResItem::Long(l)) => assert_eq!(l.value, 7),
        other => panic!("unexpected {other:?}"),
    }
}

#[test]
fn item_errors() {
    assert!(matches!(
        AttributeType::new(sel(Q_NAME), 4).int_item(1),
        Err(AttributeError::NotIntType(s)) if s.value == Q_NAME
    ));
    assert!(matches!(
        AttributeType::new(sel(Q_DEPTH), 4).text_item(b"ABCD"),
        Err(AttributeError::NotTextType(s)) if s.value == Q_DEPTH
    ));
    assert!(matches!(
        AttributeType::new(sel(Q_NAME), 48).text_item(b"ABCD"),
        Err(AttributeError::InvalidTextLength(4, 48))
    ));
    let (s, v) = InqResItem::<&[u8]>::Long(IntItem::new(sel(Q_DEPTH), 5).unwrap()).into_tuple();
    assert_eq!(s.value, Q_DEPTH);
    assert!(matches!(v, AttributeValue::Long(5)));
}

#[test]
fn first_text_item() {
    let mut items = MultiItem::new();
    items.push_text_item(&TextItem::new_unchecked(sel(Q_NAME), b"XYZ"));
    match items.into_first() {
        Some(InqResItem::Text(t)) => assert_eq!(t.value, b"XYZ".to_vec()),
        other => panic!("unexpected {other:?}"),
    }
    assert!(MultiItem::new().into_first().is_none());
}

#[test]
fn inquiry_request() {
    let req = inq_request(&[
        AttributeType::new(sel(Q_NAME), 48),
        AttributeType::new(sel(Q_DEPTH), 0),
        AttributeType::new(sel(Q_NAME + 1), 12),
    ]);
    assert_eq!(req.selectors.len(), 3);
    assert_eq!(req.text_len, vec![48, 12]);
    assert_eq!(req.int_count, 1);
    assert_eq!(req.text_total, 60);
}

#[test]
fn many_pushed_items_read_back() {
    let texts: Vec<Vec<u8>> = (0..20u8).map(|i| vec![b'A' + i; (i % 5) as usize + 1]).collect();
    let mut items = MultiItem::new();
    let mut expected: Vec<(i32, Option<i32>, Option<&[u8]>)> = Vec::new();
    for i in 0..40usize {
        if i % 2 == 0 {
            let value = i as i32 * 3 - 17;
            items.push_int_item(&IntItem::new(sel(Q_DEPTH), value).unwrap());
            expected.push((Q_DEPTH, Some(value), None));
        } else {
            let t = &texts[i / 2];
            items.push_text_item(&TextItem::new_unchecked(sel(Q_NAME), t));
            expected.push((Q_NAME, None, Some(t.as_slice())));
        }
    }
    let read = items.iter();
    assert_eq!(read.len(), expected.len());
    for (item, (selector, int_value, text)) in read.into_iter().zip(expected) {
        let (s, v) = item.into_tuple();
        assert_eq!(s.value, selector);
        match v {
            AttributeValue::Long(l) => assert_eq!(Some(l), int_value),
            AttributeValue::Text(t) => assert_eq!(Some(t), text),
        }
    }
}
