use mqi::structs::{
    max_version, MqStruct, Mqcd, Mqcno, Mqcsp, Mqod, Mqsco, NoStruct,
    StructOptionBuilder,
};

#[test]
fn lifetime() {
    let a: Option<MqStruct<i32>>;
    {
        let b = NoStruct;
        a = b.option_build();
    }
    assert!(a.is_none());
}

#[test]
fn min_version_raises_only() {
    let mut cno = MqStruct::new(Mqcno::default_value());
    assert_eq!(cno.struc.version, 1);
    cno.set_min_version(5);
    assert_eq!(cno.struc.version, 5);
    cno.set_min_version(2);
    assert_eq!(cno.struc.version, 5);
    assert_eq!(max_version(3, 7), 7);
}

#[test]
fn attach_strings() {
    let mut csp = MqStruct::new(Mqcsp::default_value());
    csp.attach_userid("user");
    csp.attach_password("password");
    csp.attach_token("token");
    assert_eq!(csp.struc.csp_user_id_length, 4);
    assert_eq!(csp.struc.csp_password_length, 8);
    assert_eq!(csp.struc.token_length, 5);
    assert_eq!(csp.struc.version, 3);
    let mut od = MqStruct::new(Mqod::default_value());
    od.attach_object_string("topic/string");
    assert_eq!(od.struc.version, 4);
    assert_eq!(od.struc.object_string.vs_length, 12);
    assert_eq!(od.struc.object_string.vs_ccsid, 1208);
    let v = MqStruct::from_encoded_str("abc");
    assert_eq!(v.struc.vs_buf_size, 3);
    let mut sco = MqStruct::new(Mqsco::default_value());
    sco.attach_repo_password(Some("pw"));
    assert_eq!(sco.struc.version, 6);
    assert_eq!(sco.struc.key_repo_password_length, 2);
    let cd = Mqcd::client_conn_default();
    assert_eq!(cd.channel_type, 6);
}
