use mqi::builder::{
    mqserver, Ccdt, ClientDefinition, ConnectionOptions, Credentials, CredentialsSecret, DefinitionMethod,
    MqServerSyntaxError, ProtectedSecret, Secret, Tls,
};
use mqi::mqstr::MqStr;
use mqi::structs::{MqStruct, Mqcno, Mqcsp, StructBuilder};
use mqi::types::{KeyRepo, QueueName};

#[test]
fn mqstructure() {
    #[derive(Default, Debug)]
    struct Test(u32);
    fn lt(_param: &Test) -> MqStruct<Test> {
        MqStruct::new(Test(1))
    }
    let b = Test(2);
    let c = lt(&b);
    assert_eq!(c.struc.0, 1);
}

#[test]
fn cno() {
    let mut cno = MqStruct::new(Mqcno::default_value());
    let csp = Mqcsp::default_value();
    cno.set_csp(Some(&csp));
    assert_eq!(cno.struc.options, 0);
}

#[test]
fn apply_cno() {
    let mut cno = MqStruct::new(Mqcno::default_value());
    let b = Ccdt::new("bla".to_string());
    b.apply_cno(&mut cno);
    assert_eq!(cno.struc.options & 0xC00, 0x800);
    assert_eq!(cno.struc.ccdt_url_length, 3);
    assert_eq!(cno.struc.ccdt_url, Some(b"bla".as_slice()));
    assert!(cno.struc.client_conn.is_none());
}

#[test]
fn protected_secret() {
    let c = ProtectedSecret::new("hello".to_string());
    assert_eq!(c.expose_secret(), "hello");
}

#[test]
fn credentials_build() {
    let user: Credentials = CredentialsSecret::user("app".to_string(), ProtectedSecret::new("passw0rd".to_string()));
    let csp = user.build();
    assert_eq!(csp.struc.version, 3);
    assert_eq!(csp.struc.authentication_type, 1);
    assert_eq!(csp.struc.csp_user_id_length, 3);
    assert_eq!(csp.struc.csp_password_length, 8);
    assert!(csp.struc.initial_key.is_none());

    let token: Credentials = CredentialsSecret::Token(
        ProtectedSecret::new("tok".to_string()),
        Some(ProtectedSecret::new("key1".to_string())),
    );
    let csp = token.build();
    assert_eq!(csp.struc.authentication_type, 2);
    assert_eq!(csp.struc.token_length, 3);
    assert_eq!(csp.struc.initial_key_length, 4);

    let none: Credentials = CredentialsSecret::Default;
    let csp = none.build();
    assert_eq!(csp.struc.authentication_type, 0);
    assert!(csp.struc.csp_user_id.is_none());
}

#[test]
fn tls_build() {
    let repo = KeyRepo(MqStr::from_str("/var/mqm/key").unwrap());
    let mut tls: Tls = Tls::new(&repo, Some(ProtectedSecret::new("pw".to_string())), None);
    tls.fips_required(true).key_reset_count(5);
    let sco = tls.build();
    assert_eq!(sco.struc.version, 6);
    assert_eq!(sco.struc.fips_required, 1);
    assert_eq!(sco.struc.key_reset_count, 5);
    assert_eq!(sco.struc.key_repo_password_length, 2);
    assert_eq!(&sco.struc.key_repository.data[..12], b"/var/mqm/key");
}

#[test]
fn builder_mqserver() {
    let (channel, connection, transport) = mqserver("SVRCONN/TCP/host(1414)").unwrap();
    assert!(channel.0.eq_str("SVRCONN"));
    assert!(connection.0.eq_str("host(1414)"));
    assert_eq!(transport, 2);
    assert!(matches!(mqserver("a/b"), Err(MqServerSyntaxError::InvalidFormat)));
    assert!(matches!(mqserver("a/XYZ/c"), Err(MqServerSyntaxError::UnrecognizedTransport(t)) if t == "XYZ"));
    let long_channel = format!("{}/TCP/c", "x".repeat(21));
    assert!(matches!(mqserver(&long_channel), Err(MqServerSyntaxError::ChannelFormat(_))));
    // The first group takes as much as it can.
    let (channel, ..) = mqserver("a/b/LU62/d").unwrap();
    assert!(channel.0.eq_str("a/b"));
}

#[test]
fn connection_options() {
    let options = ConnectionOptions::from_mqserver("CH/TCP/host").unwrap();
    assert!(options.method.config.struc.channel_name.eq_str("CH"));
    assert_eq!(options.method.config.struc.version, 12);
    let named = options.application_name(Some(mqi::types::ApplName(MqStr::from_str("app").unwrap())));
    assert!(named.app_name.is_some());
    let q = QueueName(MqStr::from_str("Q1").unwrap());
    assert!(q.0.eq_str("Q1"));
    let def: ClientDefinition<_, _> = ClientDefinition::from_mqcd(MqStruct::new(mqi::structs::Mqcd::client_conn_default()));
    let def = def.balance_options(None);
    assert!(def.balance.is_none());
}

#[test]
fn mqserver_client_definition() {
    let from_server = ClientDefinition::from_mqserver("DEV.APP.SVRCONN/TCP/mq.example.com").unwrap();
    let (channel, connection, transport) = mqserver("DEV.APP.SVRCONN/TCP/mq.example.com").unwrap();
    let direct = ClientDefinition::new_client(&channel, &connection, Some(transport));
    let (a, b) = (from_server.config.struc, direct.config.struc);
    assert_eq!(a.version, b.version);
    assert_eq!(a.channel_type, b.channel_type);
    assert_eq!(a.transport_type, b.transport_type);
    assert_eq!(a.channel_name.data, b.channel_name.data);
    assert_eq!(a.connection_name.data, b.connection_name.data);
    assert_eq!(a.ssl_cipher_spec.data, b.ssl_cipher_spec.data);
    assert_eq!(a.channel_type, 6);
    assert_eq!(a.ssl_cipher_spec.data, [0u8; 32]);
    assert!(matches!(
        ClientDefinition::from_mqserver("a/BAD/c"),
        Err(MqServerSyntaxError::UnrecognizedTransport(t)) if t == "BAD"
    ));
    assert!(matches!(ClientDefinition::from_mqserver("invalid"), Err(MqServerSyntaxError::InvalidFormat)));
    let options = ConnectionOptions::from_mqserver("CH/TCP/host").unwrap();
    assert_eq!(options.method.config.struc.channel_type, 6);
    assert!(options.method.balance.is_none());
}
