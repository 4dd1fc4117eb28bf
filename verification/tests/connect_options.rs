use mqi::connect_options::{
    mqserver, Binding, Ccdt, ConnectOption, ConnectStructs, Credentials, InitialKeySecret, MqServer,
    MqServerSyntaxError, MqcnoOptions, ProtectedSecret, Secret, SuiteB, Tls, CONNECT_HAS_CD,
    CONNECT_HAS_CNO, CONNECT_HAS_CSP, CONNECT_HAS_SCO,
};
use mqi::connect::{connect_plan, ThreadBlock, Threading};
use mqi::mqstr::MqStr;
use mqi::types::{ApplName, CipherSpec, KeyRepo, QueueManagerName};

const MQXPT_TCP: i32 = 2;
const MQXPT_LU62: i32 = 1;
const MQXPT_NETBIOS: i32 = 3;
const MQXPT_SPX: i32 = 4;
const CLIENT_MASK: i32 = 0x800 | 0x400;

const VALID: &[(&str, i32, &str, &str)] = &[
    ("a", MQXPT_TCP, "b", "a/TCP/b"),
    ("a", MQXPT_SPX, "c", "a/SPX/c"),
    ("a", MQXPT_LU62, "d", "a/LU62/d"),
    ("a", MQXPT_NETBIOS, "e", "a/NETBIOS/e"),
];

fn test_co<'a, F: FnOnce(usize, Option<QueueManagerName>, &ConnectStructs<'a>)>(co: &impl ConnectOption<'a>, f: F) {
    let mut cs = ConnectStructs::default_value();
    let flags = co.apply_param(&mut cs);
    f(flags, co.queue_manager_name(), &cs);
}

#[test]
fn secret() {
    let x: ProtectedSecret<&str> = ProtectedSecret::new("hello");
    let _secret = x.expose_secret();
}

#[test]
fn mqserver_try_from() -> Result<(), MqServerSyntaxError> {
    for (v_channel, v_transport, v_connection, v_server) in VALID {
        let MqServer { channel_name, connection_name, transport } = MqServer::try_from(v_server)?;
        assert!(*v_transport == transport);
        assert!(channel_name == *v_channel);
        assert!(connection_name == *v_connection);
    }
    assert!(MqServer::try_from("a/BAD/c").is_err_and(|e| matches!(e, MqServerSyntaxError::UnrecognizedTransport(_))));
    assert!(MqServer::try_from("invalid").is_err_and(|e| matches!(e, MqServerSyntaxError::InvalidFormat)));
    Ok(())
}

#[test]
fn mqserver_parse() -> Result<(), MqServerSyntaxError> {
    for (channel, transport, connection, server) in VALID {
        let (m_channel, m_connection, m_transport) = mqserver(server)?;
        assert!(m_transport == *transport);
        assert!(m_channel.0.eq_str(channel));
        assert!(m_connection.0.eq_str(connection));
    }
    assert!(mqserver("a/BAD/c").is_err_and(|e| matches!(e, MqServerSyntaxError::UnrecognizedTransport(_))));
    assert!(mqserver("invalid").is_err_and(|e| matches!(e, MqServerSyntaxError::InvalidFormat)));
    Ok(())
}

#[test]
fn connect_option_option() {
    let mut cs = ConnectStructs::default_value();
    let none_options = None::<Binding>;
    assert_eq!(none_options.apply_param(&mut cs), 0);
    assert!(none_options.queue_manager_name().is_none());
    test_co(&Some(MqcnoOptions(0x1000000)), |_, _, cs| {
        assert_eq!(cs.cno.struc.options & 0x1000000, 0x1000000);
    });
}

#[test]
fn binding() {
    test_co(&Binding::Client, |_, _, cs| {
        assert_eq!(cs.cno.struc.options & CLIENT_MASK, 0x800);
    });
    test_co(&Binding::Default, |_, _, cs| {
        assert_eq!(cs.cno.struc.options & CLIENT_MASK, 0);
    });
    test_co(&Binding::Local, |_, _, cs| {
        assert_eq!(cs.cno.struc.options & CLIENT_MASK, 0x400);
    });
}

#[test]
fn cipher_spec() {
    let cipher = CipherSpec(MqStr::from_str("TLS_RSA_WITH_AES_128_CBC_SHA256").unwrap());
    test_co(&cipher, |bf, _, cs| {
        assert!(cs.cd.struc.version >= 7);
        assert_eq!(cs.cd.struc.ssl_cipher_spec.data, cipher.0.data);
        assert_eq!(bf & CONNECT_HAS_CD, CONNECT_HAS_CD);
    });
}

#[test]
fn appl_name() {
    let app = ApplName(MqStr::from_str("MYAPP").unwrap());
    test_co(&app, |bf, _, cs| {
        assert!(cs.cno.struc.version >= 7);
        assert_eq!(cs.cno.struc.appl_name.data, app.0.data);
        assert_eq!(bf & CONNECT_HAS_CNO, CONNECT_HAS_CNO);
    });
}

#[test]
fn ccdt() {
    let ccdt = Ccdt("url");
    test_co(&ccdt, |bf, _, cs| {
        assert!(cs.cno.struc.version >= 6);
        assert_eq!(cs.cno.struc.options & CLIENT_MASK, 0x800);
        assert_eq!(bf & CONNECT_HAS_CNO, CONNECT_HAS_CNO);
        assert_eq!(cs.cno.struc.ccdt_url_length, 3);
        assert!(cs.cno.struc.ccdt_url.is_some());
    });
}

#[test]
fn initial_key() {
    let initial_key = InitialKeySecret(ProtectedSecret::new("key"));
    test_co(&initial_key, |bf, _, cs| {
        assert_eq!(cs.csp.struc.initial_key_length, 3);
        assert!(cs.csp.struc.initial_key.is_some());
        assert_eq!(bf & CONNECT_HAS_CSP, CONNECT_HAS_CSP);
    });
}

#[test]
fn credentials() {
    test_co(&Credentials::<'_, &str>::Default, |bf, _, cs| {
        assert_eq!(cs.csp.struc.authentication_type, 0);
        assert_eq!(bf & CONNECT_HAS_CSP, CONNECT_HAS_CSP);
    });
    test_co(&Credentials::User("user", ProtectedSecret::new("password")), |bf, _, cs| {
        assert_eq!(cs.csp.struc.authentication_type, 1);
        assert_eq!(cs.csp.struc.csp_user_id_length, 4);
        assert!(cs.csp.struc.csp_user_id.is_some());
        assert_eq!(cs.csp.struc.csp_password_length, 8);
        assert!(cs.csp.struc.csp_password.is_some());
        assert_eq!(bf & CONNECT_HAS_CSP, CONNECT_HAS_CSP);
    });
    test_co(&Credentials::<'_, &str>::Token(ProtectedSecret::new("token")), |bf, _, cs| {
        assert_eq!(cs.csp.struc.authentication_type, 2);
        assert_eq!(cs.csp.struc.token_length, 5);
        assert!(cs.csp.struc.token.is_some());
        assert_eq!(bf & CONNECT_HAS_CSP, CONNECT_HAS_CSP);
    });
}

#[test]
fn mqserver_co() {
    let qm = QueueManagerName(MqStr::from_str("MYQM").unwrap());
    test_co(&qm, |_, coqm, _| {
        assert!(coqm.is_some_and(|name| name.0.data == qm.0.data));
    });
}

#[test]
fn tuple_applies_right_to_left() {
    // The binding is applied after the server, so the local binding wins.
    let server = MqServer::try_from("CH/TCP/host").unwrap();
    test_co(&(Binding::Local, server), |bf, _, cs| {
        assert_eq!(cs.cno.struc.options & CLIENT_MASK, 0x400);
        assert_eq!(bf, CONNECT_HAS_CD);
        assert!(cs.cd.struc.channel_name.eq_str("CH"));
    });
    let qm = QueueManagerName(MqStr::from_str("QM1").unwrap());
    test_co(&(Binding::Client, qm, Binding::Local), |_, name, cs| {
        assert!(name.is_some());
        assert_eq!(cs.cno.struc.options & CLIENT_MASK, 0x800);
    });
}

#[test]
fn tls_option() {
    let repo = KeyRepo(MqStr::from_str("repo").unwrap());
    let cipher = CipherSpec(MqStr::from_str("ANY_TLS12").unwrap());
    let mut tls = Tls::new(&repo, None, &cipher);
    tls.fips_required(true).suite_b_policy(SuiteB::Min(192).into_policy());
    test_co(&tls, |bf, _, cs| {
        assert_eq!(bf, CONNECT_HAS_SCO | CONNECT_HAS_CD);
        assert_eq!(cs.sco.struc.fips_required, 1);
        assert_eq!(cs.sco.struc.encryption_policy_suite_b, [4, 0, 0, 0]);
        assert!(cs.sco.struc.version >= 5);
        assert!(cs.cd.struc.version >= 7);
    });
}

#[test]
fn suite_b_policies() {
    assert_eq!(SuiteB::Unset.into_policy(), [1, 0, 0, 0]);
    assert_eq!(SuiteB::Min(128).into_policy(), [2, 4, 0, 0]);
    assert_eq!(SuiteB::Min(0).into_policy(), [2, 4, 0, 0]);
    assert_eq!(SuiteB::Min(192).into_policy(), [4, 0, 0, 0]);
    assert_eq!(SuiteB::Min(256).into_policy(), [0, 0, 0, 0]);
}

#[test]
fn mqserver_errors() {
    let long_conn = format!("a/TCP/{}", "c".repeat(265));
    assert!(matches!(MqServer::try_from(&long_conn), Err(MqServerSyntaxError::InvalidFormat)));
    let wide_channel = format!("{}/TCP/c", "é".repeat(11));
    assert!(matches!(MqServer::try_from(&wide_channel), Err(MqServerSyntaxError::ChannelFormat(_))));
}

#[test]
fn plan_attaches_structures() {
    let creds = Credentials::User("user", ProtectedSecret::new("password"));
    let server = MqServer::try_from("CH/TCP/host").unwrap();
    let plan = connect_plan(&(creds, server), ThreadBlock::handle_share());
    assert_eq!(plan.mask, CONNECT_HAS_CSP | CONNECT_HAS_CD);
    assert_eq!(plan.structs.cno.struc.version, 5);
    assert_eq!(plan.structs.cno.struc.options & 0x40, 0x40);
    assert!(plan.qm_name.is_none());
}
