use mqi::open::ObjectString;
use mqi::subscribe::{
    subscribe_managed_param, subscribe_param, subscribe_request_param, subscription_object, ProvidedObject,
    SubscribeParam, SubscribeRequestParam,
};
use mqi::values::{MqMask, MqValue, MQCO, MQSO, MQSR, MQSRO};

#[test]
fn subscribe_options() {
    let topic = "prices/fruit";
    let p = subscribe_param(&(ObjectString(topic), MqMask::<MQSO>::from(4), MqMask::<MQCO>::from(1)));
    assert_eq!(p.sd.struc.options, 4);
    assert_eq!(p.close_options.value, 1);
    assert_eq!(p.sd.struc.object_string.vs.unwrap(), topic.as_bytes());
    assert_eq!(p.sd.struc.object_string.vs_length, 12);

    let m = subscribe_managed_param(&(ProvidedObject(5), MqMask::<MQSO>::from(2)));
    assert_eq!(m.sd.struc.options, 2 | 32);
    assert_eq!(m.provided_object, 5);

    let d = SubscribeParam::new();
    assert_eq!(d.sd.struc.version, 1);
    assert_eq!(d.provided_object, 0);
}

#[test]
fn subscription_objects() {
    assert_eq!(subscription_object(0, 0), None);
    assert_eq!(subscription_object(7, 7), None);
    assert_eq!(subscription_object(0, 9), Some(9));
    assert_eq!(subscription_object(7, 9), Some(9));
}

#[test]
fn request_options() {
    let d = SubscribeRequestParam::new();
    assert_eq!(d.sr.value, 1);
    assert_eq!(d.sro.struc.options, 0);
    let r = subscribe_request_param(&(MqMask::<MQSRO>::from(8), MqValue::<MQSR>::from(3)));
    assert_eq!(r.sro.struc.options, 8);
    assert_eq!(r.sr.value, 3);
    let n = subscribe_request_param(&());
    assert_eq!(n.sr.value, 1);
}

#[test]
fn test_request_retained() {
    let mut srp = subscribe_request_param(&());
    assert_eq!(srp.sr.value, 1);
    assert_eq!(srp.sro.struc.num_pubs, 0);
    // The request fills in the number of publications sent
    srp.sro.struc.num_pubs = 5;
    assert_eq!(srp.sro.struc.num_pubs, 5);
}
