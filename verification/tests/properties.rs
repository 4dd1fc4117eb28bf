use mqi::constants::{
    MQCC_FAILED, MQCC_OK, MQIMPO_CONVERT_VALUE, MQRC_NONE, MQRC_PROPERTY_NOT_AVAILABLE,
    MQENC_INTEGER_NORMAL, MQENC_NATIVE, MQRC_PROPERTY_NAME_TOO_BIG, MQRC_PROPERTY_VALUE_TOO_BIG,
    MQRC_PROP_NAME_NOT_CONVERTED, MQRC_PROP_VALUE_NOT_CONVERTED, MQTYPE_BOOLEAN,
    MQTYPE_BYTE_STRING, MQTYPE_FLOAT32, MQTYPE_FLOAT64, MQTYPE_INT16, MQTYPE_INT32,
    MQTYPE_INT64, MQTYPE_INT8, MQTYPE_NULL, MQTYPE_STRING,
};
use mqi::mqstr::MqStr;
use mqi::properties::{
    inq_outcome, inqmp_step, PropertyState, is_property_not_available, name_buffer_size, value_buffer_size, Attributes,
    Conversion, InqBuffer, InqOutcome, InqmpStep, Metadata, Mqimpo, Mqpd, NameUsage,
    PropDetails, PropertyParam, Value, request_name,
};
use mqi::set_property::{set_property_request, Mqsmpo};
use mqi::strings::StringCcsid;
use mqi::structs::MqStruct;

fn apply(value: &Value) -> (MqStruct<Mqpd>, MqStruct<Mqsmpo>, Vec<u8>, i32) {
    let mut pd = MqStruct::new(Mqpd::default_value());
    let mut smpo = MqStruct::new(Mqsmpo::default_value());
    let (data, t) = value.apply_mqinqmp(&mut pd, &mut smpo);
    (pd, smpo, data, t)
}

#[test]
fn set_property() {
    let (_, smpo, data, t) = apply(&Value::String(StringCcsid::from_str_owned("test")));
    assert_eq!(data, b"test");
    assert_eq!(t, MQTYPE_STRING);
    assert_eq!(smpo.struc.value_ccsid, 1208);

    let mqstr_sub: MqStr<8> = MqStr::from_str("test").unwrap();
    let (_, smpo, data, t) =
        apply(&Value::String(StringCcsid::from_vec(mqstr_sub.as_bytes().to_vec(), Some(1208))));
    assert_eq!(data, mqstr_sub.as_bytes());
    assert_eq!(t, MQTYPE_STRING);
    assert_eq!(smpo.struc.value_ccsid, 1208);

    let encoded_str = StringCcsid::from_vec(b"test".to_vec(), Some(819));
    let (_, smpo, data, t) = apply(&Value::String(encoded_str.clone()));
    assert_eq!(data, encoded_str.data);
    assert_eq!(t, MQTYPE_STRING);
    assert_eq!(smpo.struc.value_ccsid, 819);

    let (_, _, data, t) = apply(&Value::ByteString(b"test".to_vec()));
    assert_eq!(data, b"test");
    assert_eq!(t, MQTYPE_BYTE_STRING);

    let (_, _, data, t) = apply(&Value::Boolean(false));
    assert_eq!(data, 0i32.to_le_bytes());
    assert_eq!(t, MQTYPE_BOOLEAN);

    let (_, _, data, t) = apply(&Value::Boolean(true));
    assert_eq!(data, 1i32.to_le_bytes());
    assert_eq!(t, MQTYPE_BOOLEAN);

    let (_, _, data, t) = apply(&Value::Int8(99));
    assert_eq!(data, 99i8.to_le_bytes());
    assert_eq!(t, MQTYPE_INT8);
    let (_, _, data, t) = apply(&Value::Int16(99));
    assert_eq!(data, 99i16.to_le_bytes());
    assert_eq!(t, MQTYPE_INT16);
    let (_, _, data, t) = apply(&Value::Float32(99.0f32.to_bits()));
    assert_eq!(data, 99.0f32.to_le_bytes());
    assert_eq!(t, MQTYPE_FLOAT32);
    let (_, _, data, t) = apply(&Value::Float64(99.0f64.to_bits()));
    assert_eq!(data, 99.0f64.to_le_bytes());
    assert_eq!(t, MQTYPE_FLOAT64);
    let (_, _, data, t) = apply(&Value::Int32(99));
    assert_eq!(data, 99i32.to_le_bytes());
    assert_eq!(t, MQTYPE_INT32);
    let (_, _, data, t) = apply(&Value::Int64(99));
    assert_eq!(data, 99i64.to_le_bytes());
    assert_eq!(t, MQTYPE_INT64);

    let (_, _, _, t) = apply(&Value::Null);
    assert_eq!(t, MQTYPE_NULL);
}

#[test]
fn property_attr() {
    let mut mqpd = MqStruct::new(Mqpd::default_value());
    mqpd.struc.context = 99;
    let attribute = Attributes::new(mqpd);
    assert_eq!(99, attribute.context());

    let mut impo = MqStruct::new(Mqimpo::with_options(0));
    impo.struc.returned_ccsid = 1208;
    impo.struc.returned_encoding = MQENC_INTEGER_NORMAL;
    let metadata = Metadata::new(b"test".len(), &impo, MQTYPE_STRING);
    assert_eq!(4, metadata.len());
    assert_eq!(1208, metadata.ccsid());
    assert_eq!(MQENC_INTEGER_NORMAL, metadata.encoding());
}

#[test]
fn set_value_reads_back() {
    let values = vec![
        Value::Boolean(true),
        Value::Int8(-5),
        Value::Int16(-300),
        Value::Int32(-70000),
        Value::Int64(-5_000_000_000),
        Value::Float32(1.5f32.to_bits()),
        Value::Float64((-2.25f64).to_bits()),
    ];
    for v in values {
        let (_, smpo, data, t) = apply(&v);
        let back = Value::create_from(t, &data, smpo.struc.value_ccsid, smpo.struc.value_encoding);
        assert_eq!(format!("{back:?}"), format!("{v:?}"));
    }
    let (_, smpo, data, t) = apply(&Value::String(StringCcsid::from_vec(b"abc".to_vec(), Some(819))));
    match Value::create_from(t, &data, smpo.struc.value_ccsid, smpo.struc.value_encoding) {
        Value::String(s) => {
            assert_eq!(s.data, b"abc");
            assert_eq!(s.ccsid, Some(819));
        }
        other => panic!("unexpected {other:?}"),
    }
}

#[test]
fn set_property_request_location() {
    let r = set_property_request(&Value::Int32(7), 2);
    assert_eq!(r.smpo.struc.options, 2);
    assert_eq!(r.smpo.struc.value_encoding, MQENC_NATIVE);
    assert_eq!(r.value_type, MQTYPE_INT32);
    assert_eq!(r.data, vec![7, 0, 0, 0]);
    assert_eq!(r.mqpd.struc.context, 0);
}

#[test]
fn attributes_apply_descriptor() {
    let mut mqpd = MqStruct::new(Mqpd::default_value());
    mqpd.struc.support = 7;
    let attrs = Attributes::new(mqpd);
    let mut pd = MqStruct::new(Mqpd::default_value());
    let mut smpo = MqStruct::new(Mqsmpo::default_value());
    let (data, t) = attrs.apply_mqinqmp(&Value::Int8(1), &mut pd, &mut smpo);
    assert_eq!(pd.struc.support, 7);
    assert_eq!(data, vec![1]);
    assert_eq!(t, MQTYPE_INT8);
}

#[test]
fn create_values() {
    match Value::create_from(MQTYPE_INT32, &[1, 1, 0, 0], 0, MQENC_NATIVE) {
        Value::Int32(v) => assert_eq!(v, 257),
        other => panic!("unexpected {other:?}"),
    }
    match Value::create_from(MQTYPE_BOOLEAN, &[0, 0, 0, 0], 0, MQENC_NATIVE) {
        Value::Boolean(b) => assert!(!b),
        other => panic!("unexpected {other:?}"),
    }
    match Value::create_from(MQTYPE_STRING, b"hi", 0, MQENC_NATIVE) {
        Value::String(s) => {
            assert_eq!(s.data, b"hi");
            assert_eq!(s.ccsid, None);
        }
        other => panic!("unexpected {other:?}"),
    }
    assert!(matches!(Value::create_from(MQTYPE_NULL, &[], 0, MQENC_NATIVE), Value::Null));
}

#[test]
fn conversions() {
    let mut impo = MqStruct::new(Mqimpo::with_options(0));
    impo.struc.returned_ccsid = 500;
    impo.struc.returned_encoding = 17;
    match Conversion::create_from(b"ab", MQTYPE_STRING, &impo, Some(MQRC_PROP_VALUE_NOT_CONVERTED)) {
        Conversion::Raw(d, e, c) => {
            assert_eq!(d, b"ab");
            assert_eq!(e, 17);
            assert_eq!(c, 500);
        }
        other => panic!("unexpected {other:?}"),
    }
    assert!(matches!(
        Conversion::create_from(&[3], MQTYPE_INT8, &impo, None),
        Conversion::Value(Value::Int8(3))
    ));
    impo.struc.returned_name_ccsid = 37;
    match Conversion::name_from(b"n", &impo, Some(MQRC_PROP_NAME_NOT_CONVERTED)) {
        Conversion::Raw(d, e, c) => {
            assert_eq!(d, b"n");
            assert_eq!(e, 0);
            assert_eq!(c, 37);
        }
        other => panic!("unexpected {other:?}"),
    }
    assert!(matches!(Conversion::name_from(b"n", &impo, None), Conversion::Value(v) if v == b"n"));
}

#[test]
fn inquiry_steps() {
    assert_eq!(
        inqmp_step(InqOutcome::Length(2000, MQRC_PROPERTY_VALUE_TOO_BIG), 1024, None, None, None, 0),
        InqmpStep::RetryValue(2000)
    );
    assert_eq!(
        inqmp_step(InqOutcome::Length(2000, MQRC_PROPERTY_VALUE_TOO_BIG), 4, Some(4), None, None, 0),
        InqmpStep::Fail(MQRC_PROPERTY_VALUE_TOO_BIG)
    );
    assert_eq!(
        inqmp_step(InqOutcome::Length(50, MQRC_PROPERTY_NAME_TOO_BIG), 1024, None, Some(10), None, 0),
        InqmpStep::RetryName(50)
    );
    assert_eq!(
        inqmp_step(InqOutcome::Length(50, MQRC_PROPERTY_NAME_TOO_BIG), 1024, None, None, None, 0),
        InqmpStep::Fail(MQRC_PROPERTY_NAME_TOO_BIG)
    );
    assert_eq!(
        inqmp_step(InqOutcome::Done(5), 1024, None, Some(100), None, 7),
        InqmpStep::Complete(5, Some(7))
    );
    assert_eq!(inqmp_step(InqOutcome::Done(5), 4, None, None, None, 0), InqmpStep::Complete(4, None));
    assert_eq!(inqmp_step(InqOutcome::Failed(2, 2471), 4, None, None, None, 0), InqmpStep::Fail(2471));
    assert!(is_property_not_available(2, 2471));
    assert!(!is_property_not_available(1, 2471));
}

#[test]
fn buffer_sizes() {
    assert_eq!(value_buffer_size(None), 1024);
    assert_eq!(value_buffer_size(Some(4)), 4);
    assert_eq!(value_buffer_size(Some(5000)), 1024);
    assert_eq!(name_buffer_size(NameUsage::Ignored), None);
    assert_eq!(name_buffer_size(NameUsage::MaxLength(25)), Some(25));
    assert_eq!(name_buffer_size(NameUsage::AnyLength), Some(1024));
    assert_eq!(NameUsage::MaxLength(25).max_length(), Some(25));
    assert_eq!(NameUsage::AnyLength.max_length(), None);

    let mut v = vec![1u8, 2, 3];
    let buf = InqBuffer::Slice(v.as_mut_slice());
    assert_eq!(buf.truncate(2).len(), 2);
    let owned: InqBuffer<'_, u8> = InqBuffer::Owned(vec![0; 10]);
    assert_eq!(owned.truncate(20).len(), 10);
}

#[test]
fn property_details() {
    let mut impo = MqStruct::new(Mqimpo::with_options(0));
    impo.struc.returned_ccsid = 1208;
    impo.struc.returned_encoding = MQENC_NATIVE;
    let mqpd = MqStruct::new(Mqpd::default_value());
    let d = PropDetails::create_from(5u8, 1, &mqpd, &impo);
    assert_eq!(d.len(), 1);
    assert!(!d.is_empty());
    assert_eq!(d.ccsid(), 1208);
    assert_eq!(d.encoding(), MQENC_NATIVE);
    assert_eq!(d.copy_options(), 22);
    let p = PropertyParam::new(8);
    assert_eq!(p.impo.struc.options, 8);
}

#[test]
fn inquiry_outcomes() {
    assert_eq!(inq_outcome(2, MQRC_PROPERTY_VALUE_TOO_BIG, 3000), InqOutcome::Length(3000, MQRC_PROPERTY_VALUE_TOO_BIG));
    assert_eq!(inq_outcome(2, MQRC_PROPERTY_NAME_TOO_BIG, 80), InqOutcome::Length(80, MQRC_PROPERTY_NAME_TOO_BIG));
    assert_eq!(inq_outcome(2, 2471, 0), InqOutcome::Failed(2, 2471));
    assert_eq!(inq_outcome(1, 2466, 4), InqOutcome::Done(4));
    assert_eq!(inq_outcome(0, 0, 7), InqOutcome::Done(7));
}

#[test]
fn metadata_of_inquiry() {
    let mut param = PropertyParam::new(0);
    param.value_type = MQTYPE_STRING;
    param.impo.struc.returned_ccsid = 1208;
    param.impo.struc.returned_encoding = MQENC_INTEGER_NORMAL;
    let state = PropertyState { name: None, value: b"test".to_vec() };
    let m = Metadata::extract(&param, &state);
    assert_eq!(m.len(), 4);
    assert_eq!(m.ccsid(), 1208);
    assert_eq!(m.encoding(), MQENC_INTEGER_NORMAL);
    assert_eq!(m.value_type(), MQTYPE_STRING);
}

/// The reason of a call made while another is in progress (`MQRC_CALL_IN_PROGRESS`).
const MQRC_CALL_IN_PROGRESS: i32 = 2219;

/// One reply of `MQINQMP`: the property name, its type, its value, the completion code and
/// the reason.
type Reply = (&'static str, i32, &'static [u8], i32, i32);

/// Runs an inquiry against a list of replies, each answering one call in turn as MQ would:
/// the value length is that of the whole value, the name is cut to its buffer. Every reply
/// must be used. The result is the value and the name, none when the property does not
/// exist, or the reason of a failure.
fn inquire(replies: &[Reply], name_usage: NameUsage) -> Result<Option<(Value, Option<Vec<u8>>)>, i32> {
    let mut value_len = value_buffer_size(None);
    let mut name_len = name_buffer_size(name_usage);
    let max_name = name_usage.max_length();
    for (call, (name, value_type, data, cc, rc)) in replies.iter().enumerate() {
        let returned_name_length = name_len.map_or(0, |l| name.len().min(l));
        let step = inqmp_step(
            inq_outcome(*cc, *rc, data.len() as i32),
            value_len,
            None,
            name_len,
            max_name,
            returned_name_length as i32,
        );
        match step {
            InqmpStep::RetryValue(n) => value_len = n,
            InqmpStep::RetryName(n) => name_len = Some(n),
            InqmpStep::Complete(v, n) => {
                assert_eq!(call + 1, replies.len(), "fewer calls than replies");
                let value = Value::create_from(*value_type, &data[..v.min(data.len())], 1208, MQENC_NATIVE);
                return Ok(Some((value, n.map(|n| name.as_bytes()[..n].to_vec()))));
            }
            InqmpStep::Fail(reason) => {
                assert_eq!(call + 1, replies.len(), "fewer calls than replies");
                return if is_property_not_available(*cc, *rc) { Ok(None) } else { Err(reason) };
            }
        }
    }
    panic!("more calls than replies")
}

#[test]
fn property() {
    // A byte property is read
    let value = inquire(&[("name", MQTYPE_BYTE_STRING, b"data", MQCC_OK, MQRC_NONE)], NameUsage::Ignored);
    assert!(matches!(value, Ok(Some((Value::ByteString(ref d), None))) if d == b"data"));

    // The property does not exist
    let value = inquire(&[("", 0, b"", MQCC_FAILED, MQRC_PROPERTY_NOT_AVAILABLE)], NameUsage::Ignored);
    assert!(matches!(value, Ok(None)));

    // A failure
    let value = inquire(&[("", 0, b"", MQCC_FAILED, MQRC_CALL_IN_PROGRESS)], NameUsage::Ignored);
    assert!(matches!(value, Err(MQRC_CALL_IN_PROGRESS)));

    // The value is too big for the first buffer: two calls
    let value = inquire(
        &[
            ("name", MQTYPE_BYTE_STRING, b"data", MQCC_FAILED, MQRC_PROPERTY_VALUE_TOO_BIG),
            ("name", MQTYPE_BYTE_STRING, b"data", MQCC_OK, MQRC_NONE),
        ],
        NameUsage::Ignored,
    );
    assert!(matches!(value, Ok(Some((Value::ByteString(ref d), None))) if d == b"data"));

    // The name is too big for the first buffer: two calls
    let value = inquire(
        &[
            ("name", MQTYPE_BYTE_STRING, b"data", MQCC_FAILED, MQRC_PROPERTY_NAME_TOO_BIG),
            ("name", MQTYPE_BYTE_STRING, b"data", MQCC_OK, MQRC_NONE),
        ],
        NameUsage::AnyLength,
    );
    assert!(matches!(value, Ok(Some((Value::ByteString(ref d), Some(ref n)))) if d == b"data" && n == b"name"));

    // The value and the name are too big for the first buffers: three calls
    let value = inquire(
        &[
            ("name", MQTYPE_BYTE_STRING, b"data", MQCC_FAILED, MQRC_PROPERTY_VALUE_TOO_BIG),
            ("name", MQTYPE_BYTE_STRING, b"data", MQCC_FAILED, MQRC_PROPERTY_NAME_TOO_BIG),
            ("name", MQTYPE_BYTE_STRING, b"data", MQCC_OK, MQRC_NONE),
        ],
        NameUsage::AnyLength,
    );
    assert!(matches!(value, Ok(Some((Value::ByteString(ref d), Some(ref n)))) if d == b"data" && n == b"name"));
}

#[test]
fn property_attr_name() {
    // A name as a string: any length, converted
    let mut param = PropertyParam::new(0);
    request_name(&mut param, NameUsage::AnyLength, MQIMPO_CONVERT_VALUE);
    assert_eq!(param.name_required, NameUsage::AnyLength);
    assert_ne!(param.impo.struc.options & MQIMPO_CONVERT_VALUE, 0);
    match Conversion::name_from(b"name", &param.impo, None) {
        Conversion::Value(v) => assert_eq!(String::from_utf8(v).unwrap(), "name"),
        other => panic!("unexpected {other:?}"),
    }

    // A name as a fixed length text: at most 25 characters, converted
    let mut param = PropertyParam::new(0);
    request_name(&mut param, NameUsage::MaxLength(25), MQIMPO_CONVERT_VALUE);
    assert_eq!(param.name_required, NameUsage::MaxLength(25));
    assert_ne!(param.impo.struc.options & MQIMPO_CONVERT_VALUE, 0);
    match Conversion::name_from(b"name", &param.impo, None) {
        Conversion::Value(v) => {
            let name = MqStr::<25>::from_bytes(&v).unwrap();
            assert!(name.eq_str("name"));
        }
        other => panic!("unexpected {other:?}"),
    }

    // A name with its CCSID: any length, not converted
    let mut param = PropertyParam::new(0);
    request_name(&mut param, NameUsage::AnyLength, 0);
    param.impo.struc.returned_name_ccsid = 1208;
    assert_eq!(param.name_required, NameUsage::AnyLength);
    assert_eq!(param.impo.struc.options & MQIMPO_CONVERT_VALUE, 0);
    match Conversion::name_from(b"name", &param.impo, None) {
        Conversion::Value(v) => {
            let name = StringCcsid::new(v, Some(param.impo.struc.returned_name_ccsid), false);
            assert_eq!(name.data, b"name");
            assert_eq!(name.ccsid, Some(1208));
        }
        other => panic!("unexpected {other:?}"),
    }
}
