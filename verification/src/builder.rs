use vstd::prelude::*;
use vstd::string::StringSliceAdditionalSpecFns;

pub use crate::connect_options::{MqServerSyntaxError, SuiteB};

use crate::connect_options::{mqserver_from_parts, spec_mqserver_outcome};
use crate::mqserver::{mqserver_split, spec_greedy_fields};
use crate::constants::{
    MQCD_VERSION_12, MQCNO_CLIENT_BINDING, MQCNO_LOCAL_BINDING, MQCSP_AUTH_ID_TOKEN,
    MQCSP_AUTH_NONE, MQCSP_AUTH_USER_ID_AND_PWD, MQCSP_VERSION_3, MQSCO_VERSION_6, MQSSL_FIPS_NO,
    MQSSL_FIPS_YES,
};
use crate::mqstr::{space_padded, MqStr};
use crate::structs::{
    mq_str_ptr, MqStruct, Mqbno, Mqcd, Mqcno, Mqcsp, Mqsco, NoStruct, StructBuilder,
    StructOptionBuilder,
};
use crate::types::{ApplName, CertificateLabel, ChannelName, CipherSpec, ConnectionName, CryptoHardware, KeyRepo};

verus! {

/// A secret that is not shown by `Debug`.
#[derive(Clone)]
pub struct ProtectedSecret<T>(pub T);

impl<T> ProtectedSecret<T> {
    /// Protect a secret.
    pub fn new(secret: T) -> (s: Self)
        ensures
            s.0 == secret,
    {
        ProtectedSecret(secret)
    }
}

/// A value that holds a secret string and shows it only on request.
pub trait Secret {
    /// The secret.
    spec fn spec_secret(&self) -> Seq<char>;

    /// The secret.
    fn expose_secret(&self) -> (r: &str)
        ensures
            r@ == self.spec_secret(),
    ;
}

impl Secret for ProtectedSecret<String> {
    open spec fn spec_secret(&self) -> Seq<char> {
        self.0@
    }

    fn expose_secret(&self) -> (r: &str) {
        self.0.as_str()
    }
}

impl<'s> Secret for ProtectedSecret<&'s str> {
    open spec fn spec_secret(&self) -> Seq<char> {
        self.0@
    }

    fn expose_secret(&self) -> (r: &str) {
        self.0
    }
}

/// How the connection options (`MQCNO`) are filled in for a way of connecting.
pub trait DefinitionMethod<'ptr> {
    /// The builder of the TLS configuration of the way of connecting.
    type Sco: StructOptionBuilder<'ptr, Mqsco<'ptr>>;

    /// The connection options can be filled in: the strings fit the MQ length fields.
    spec fn spec_cno_applicable(&self) -> bool;

    /// How filling in changes the connection options.
    spec fn spec_apply_cno(&self, before: Mqcno<'ptr>, after: Mqcno<'ptr>) -> bool;

    /// Fill in the connection options.
    fn apply_cno(&'ptr self, cno: &mut MqStruct<Mqcno<'ptr>>)
        requires
            self.spec_cno_applicable(),
        ensures
            self.spec_apply_cno(old(cno).struc, final(cno).struc),
    ;

    /// The builder of the TLS configuration.
    fn sco(&self) -> (r: &Self::Sco);
}

/// The binding bits of the connection options replaced by `bits`.
pub open spec fn spec_binding(options: i32, bits: i32) -> i32 {
    (options & !(MQCNO_LOCAL_BINDING | MQCNO_CLIENT_BINDING)) | bits
}

/// A connection configured outside the application, with the binding `BINDING`
/// (`MQCNO_*_BINDING`).
#[derive(Debug, Clone, Copy, Default)]
pub struct ExternalConfig<const BINDING: u32>;

/// A connection with a local binding.
pub type LocalBinding = ExternalConfig<0x400>;

/// A connection with the default binding.
pub type DefaultBinding = ExternalConfig<0>;

/// The binding bits are set, and no channel definition or table URL is attached.
impl<'ptr, const N: u32> DefinitionMethod<'ptr> for ExternalConfig<N> {
    type Sco = NoStruct;

    open spec fn spec_cno_applicable(&self) -> bool {
        N <= i32::MAX
    }

    open spec fn spec_apply_cno(&self, before: Mqcno<'ptr>, after: Mqcno<'ptr>) -> bool {
        after == Mqcno {
            options: spec_binding(before.options, N as i32),
            client_conn: None,
            ccdt_url: None,
            ..before
        }
    }

    fn apply_cno(&'ptr self, cno: &mut MqStruct<Mqcno<'ptr>>) {
        let bits: i32 = N as i32;
        cno.struc.options = (cno.struc.options & !(MQCNO_LOCAL_BINDING | MQCNO_CLIENT_BINDING)) | bits;
        cno.struc.client_conn = None;
        cno.struc.ccdt_url = None;
    }

    fn sco(&self) -> (r: &NoStruct) {
        &NoStruct
    }
}

/// A client connection: its configuration, TLS configuration and balancing options.
pub struct ClientDefinition<C, T> {
    pub config: C,
    pub tls: T,
    pub balance: Option<Mqbno>,
}

/// The configuration fills in the connection options, then the balancing options are
/// attached.
impl<'ptr, C: DefinitionMethod<'ptr>, T: StructOptionBuilder<'ptr, Mqsco<'ptr>>> DefinitionMethod<
    'ptr,
> for ClientDefinition<C, T> {
    type Sco = T;

    open spec fn spec_cno_applicable(&self) -> bool {
        self.config.spec_cno_applicable()
    }

    open spec fn spec_apply_cno(&self, before: Mqcno<'ptr>, after: Mqcno<'ptr>) -> bool {
        exists|mid: Mqcno<'ptr>|
            #![trigger self.config.spec_apply_cno(before, mid)]
            self.config.spec_apply_cno(before, mid) && after == Mqcno {
                balance_parms: match self.balance {
                    Some(b) => Some(&b),
                    None => None,
                },
                balance_parms_offset: 0,
                ..mid
            }
    }

    fn apply_cno(&'ptr self, cno: &mut MqStruct<Mqcno<'ptr>>) {
        let ghost before = cno.struc;
        self.config.apply_cno(cno);
        let ghost mid = cno.struc;
        cno.struc.balance_parms = match &self.balance {
            Some(b) => Some(b),
            None => None,
        };
        cno.struc.balance_parms_offset = 0;
        assert(self.config.spec_apply_cno(before, mid));
    }

    fn sco(&self) -> (r: &T) {
        &self.tls
    }
}

/// A client channel definition table URL.
#[derive(Debug, Clone)]
pub struct Ccdt {
    pub url: String,
}

impl Ccdt {
    /// A client connection defined by a channel definition table URL.
    pub fn new(url: String) -> (r: ClientDefinition<Self, NoStruct>)
        ensures
            r.config.url@ == url@,
            r.balance is None,
    {
        ClientDefinition { config: Ccdt { url }, tls: NoStruct, balance: None }
    }
}

/// The binding becomes a client binding, and the table URL replaces any channel definition.
impl<'ptr> DefinitionMethod<'ptr> for Ccdt {
    type Sco = NoStruct;

    open spec fn spec_cno_applicable(&self) -> bool {
        self.url@.len() <= i32::MAX && vstd::utf8::encode_utf8(self.url@).len() <= i32::MAX
    }

    open spec fn spec_apply_cno(&self, before: Mqcno<'ptr>, after: Mqcno<'ptr>) -> bool {
        &&& after.ccdt_url matches Some(b) && b@ == vstd::utf8::encode_utf8(self.url@)
        &&& after == Mqcno {
            options: spec_binding(before.options, MQCNO_CLIENT_BINDING),
            client_conn: None,
            ccdt_url: after.ccdt_url,
            ccdt_url_length: vstd::utf8::encode_utf8(self.url@).len() as i32,
            ..before
        }
    }

    fn apply_cno(&'ptr self, cno: &mut MqStruct<Mqcno<'ptr>>) {
        let url = self.url.as_str();
        cno.struc.options = (cno.struc.options & !(MQCNO_LOCAL_BINDING | MQCNO_CLIENT_BINDING))
            | MQCNO_CLIENT_BINDING;
        cno.struc.client_conn = None;
        cno.struc.ccdt_url = mq_str_ptr(url);
        cno.struc.ccdt_url_length = url.as_bytes().len() as i32;
    }

    fn sco(&self) -> (r: &NoStruct) {
        &NoStruct
    }
}

/// The binding becomes a client binding, and the channel definition is attached in place of
/// any table URL.
impl<'ptr> DefinitionMethod<'ptr> for MqStruct<Mqcd> {
    type Sco = NoStruct;

    open spec fn spec_cno_applicable(&self) -> bool {
        true
    }

    open spec fn spec_apply_cno(&self, before: Mqcno<'ptr>, after: Mqcno<'ptr>) -> bool {
        after == Mqcno {
            options: spec_binding(before.options, MQCNO_CLIENT_BINDING),
            client_conn: Some(&self.struc),
            ccdt_url: None,
            ..before
        }
    }

    fn apply_cno(&'ptr self, cno: &mut MqStruct<Mqcno<'ptr>>) {
        cno.struc.options = (cno.struc.options & !(MQCNO_LOCAL_BINDING | MQCNO_CLIENT_BINDING))
            | MQCNO_CLIENT_BINDING;
        cno.struc.client_conn = Some(&self.struc);
        cno.struc.ccdt_url = None;
    }

    fn sco(&self) -> (r: &NoStruct) {
        &NoStruct
    }
}

/// The credentials of a connection, each secret with an optional initial key.
#[derive(Debug, Clone)]
pub enum CredentialsSecret<S> {
    /// No authentication.
    Default,
    /// A user identifier, its password and an optional initial key.
    User(String, S, Option<S>),
    /// An authentication token and an optional initial key.
    Token(S, Option<S>),
}

/// Credentials held in protected strings.
pub type Credentials = CredentialsSecret<ProtectedSecret<String>>;

impl<S> CredentialsSecret<S> {
    /// A user identifier and its password, with no initial key.
    pub fn user(user: String, password: S) -> (r: Self)
        ensures
            r matches CredentialsSecret::User(u, p, k) && u@ == user@ && p == password && k is None,
    {
        CredentialsSecret::User(user, password, None)
    }
}

/// The UTF-8 bytes of a secret.
pub open spec fn secret_bytes<S: Secret>(s: S) -> Seq<u8> {
    vstd::utf8::encode_utf8(s.spec_secret())
}

/// The initial key of credentials, if they have one.
pub open spec fn spec_initial_key<S>(c: CredentialsSecret<S>) -> Option<S> {
    match c {
        CredentialsSecret::User(_, _, k) => k,
        CredentialsSecret::Token(_, k) => k,
        CredentialsSecret::Default => None,
    }
}

/// A string field of `MQCSP` refers to `bytes` and has their length.
pub open spec fn spec_field_is(field: Option<&[u8]>, length: i32, bytes: Seq<u8>) -> bool {
    field matches Some(b) && b@ == bytes && length == bytes.len()
}

/// The security parameters built from credentials: version 3, the authentication type,
/// the user identifier and password or the token, and the initial key when there is one.
impl<'a, S: Secret> StructBuilder<'a, Mqcsp<'a>> for CredentialsSecret<S> {
    open spec fn spec_built(&self, csp: Mqcsp<'a>) -> bool {
        let d = Mqcsp {
            version: MQCSP_VERSION_3,
            authentication_type: csp.authentication_type,
            csp_user_id: csp.csp_user_id,
            csp_user_id_length: csp.csp_user_id_length,
            csp_password: csp.csp_password,
            csp_password_length: csp.csp_password_length,
            token: csp.token,
            token_length: csp.token_length,
            initial_key: csp.initial_key,
            initial_key_length: csp.initial_key_length,
        };
        &&& csp == d
        &&& match *self {
            CredentialsSecret::Default => csp.authentication_type == MQCSP_AUTH_NONE
                && csp.csp_user_id is None && csp.csp_user_id_length == 0 && csp.csp_password is None
                && csp.csp_password_length == 0 && csp.token is None && csp.token_length == 0,
            CredentialsSecret::User(user, password, _) => csp.authentication_type
                == MQCSP_AUTH_USER_ID_AND_PWD && spec_field_is(
                csp.csp_password,
                csp.csp_password_length,
                secret_bytes(password),
            ) && spec_field_is(csp.csp_user_id, csp.csp_user_id_length, vstd::utf8::encode_utf8(user@))
                && csp.token is None && csp.token_length == 0,
            CredentialsSecret::Token(token, _) => csp.authentication_type == MQCSP_AUTH_ID_TOKEN
                && spec_field_is(csp.token, csp.token_length, secret_bytes(token))
                && csp.csp_user_id is None && csp.csp_user_id_length == 0 && csp.csp_password is None
                && csp.csp_password_length == 0,
        }
        &&& match spec_initial_key(*self) {
            Some(k) => spec_field_is(csp.initial_key, csp.initial_key_length, secret_bytes(k)),
            None => csp.initial_key is None && csp.initial_key_length == 0,
        }
    }

    open spec fn spec_buildable(&self) -> bool {
        &&& match *self {
                CredentialsSecret::Default => true,
                CredentialsSecret::User(user, password, _) => vstd::utf8::encode_utf8(user@).len()
                    <= i32::MAX && secret_bytes(password).len() <= i32::MAX,
                CredentialsSecret::Token(token, _) => secret_bytes(token).len() <= i32::MAX,
            }
        &&& match spec_initial_key(*self) {
            Some(k) => secret_bytes(k).len() <= i32::MAX,
            None => true,
        }
    }

    fn build(&'a self) -> (r: MqStruct<Mqcsp<'a>>) {
        let mut csp = MqStruct::new(Mqcsp::default_value());
        csp.struc.version = MQCSP_VERSION_3;
        match self {
            CredentialsSecret::Default => {
                csp.struc.authentication_type = MQCSP_AUTH_NONE;
            },
            CredentialsSecret::User(user, password, _) => {
                let password = password.expose_secret();
                csp.struc.authentication_type = MQCSP_AUTH_USER_ID_AND_PWD;
                csp.struc.csp_password_length = password.as_bytes().len() as i32;
                csp.struc.csp_password = mq_str_ptr(password);
                let user = user.as_str();
                csp.struc.csp_user_id_length = user.as_bytes().len() as i32;
                csp.struc.csp_user_id = mq_str_ptr(user);
            },
            CredentialsSecret::Token(token, _) => {
                let token = token.expose_secret();
                csp.struc.authentication_type = MQCSP_AUTH_ID_TOKEN;
                csp.struc.token_length = token.as_bytes().len() as i32;
                csp.struc.token = mq_str_ptr(token);
            },
        }
        let initial = match self {
            CredentialsSecret::User(_, _, Some(k)) => Some(k),
            CredentialsSecret::Token(_, Some(k)) => Some(k),
            _ => None,
        };
        match initial {
            Some(k) => {
                let initial_key = k.expose_secret();
                csp.struc.initial_key_length = initial_key.as_bytes().len() as i32;
                csp.struc.initial_key = mq_str_ptr(initial_key);
            },
            None => {
                csp.struc.initial_key = None;
            },
        }
        csp
    }
}

/// The security parameters built from credentials, when the credentials can be built.
impl<'a, S: Secret> StructOptionBuilder<'a, Mqcsp<'a>> for CredentialsSecret<S> {
    open spec fn spec_option_buildable(&self) -> bool {
        self.spec_buildable()
    }

    open spec fn spec_option_built(&self, csp: Option<Mqcsp<'a>>) -> bool {
        csp matches Some(c) && self.spec_built(c)
    }

    fn option_build(&'a self) -> (r: Option<MqStruct<Mqcsp<'a>>>) {
        Some(self.build())
    }
}

/// TLS parameters: a TLS configuration and an optional key repository password.
#[derive(Debug, Clone)]
pub struct TlsSecret<S> {
    pub sco: Mqsco<'static>,
    pub key_repo_password: Option<S>,
}

/// TLS parameters with passwords held in protected strings.
pub type Tls = TlsSecret<ProtectedSecret<String>>;

impl<S> TlsSecret<S> {
    /// The default TLS parameters: the default configuration at version 6, no password.
    pub open spec fn is_default(&self) -> bool {
        &&& (Mqsco { version: 1, ..self.sco }).is_default()
        &&& self.sco.version == MQSCO_VERSION_6
        &&& self.key_repo_password is None
    }

    /// The default TLS parameters.
    pub fn default_value() -> (r: Self)
        ensures
            r.is_default(),
    {
        let mut sco = Mqsco::default_value();
        sco.version = MQSCO_VERSION_6;
        TlsSecret { sco, key_repo_password: None }
    }

    /// TLS parameters with a key repository, its optional password and an optional
    /// certificate label.
    pub fn new(repo: &KeyRepo, password: Option<S>, label: Option<&CertificateLabel>) -> (r: Self)
        ensures
            r.sco.key_repository == repo.0,
            r.sco.certificate_label@ == match label {
                Some(l) => l.0@,
                None => Seq::new(64, |i: int| 0x20u8),
            },
            r.key_repo_password == password,
            r.sco.version == MQSCO_VERSION_6,
            r.sco.crypto_hardware@ == Seq::new(256, |i: int| 0u8),
            r.sco.key_reset_count == 0,
            r.sco.fips_required == MQSSL_FIPS_NO,
            r.sco.encryption_policy_suite_b@ == SuiteB::Unset.spec_policy(),
            r.sco.certificate_val_policy == 0,
            r.sco.key_repo_password is None,
            r.sco.auth_info_recs is None,
    {
        let mut tls = Self::default_value();
        tls.key_repo(repo);
        tls.certificate_label(label);
        tls.key_repo_password(password);
        tls
    }

    /// Set the cryptographic hardware configuration; `None` leaves it blank.
    pub fn crypto_hardware(&mut self, hardware: Option<&CryptoHardware>) -> (r: &mut Self)
        ensures
            r.sco.crypto_hardware@ == match hardware {
                Some(h) => h.0@,
                None => Seq::new(256, |i: int| 0x20u8),
            },
            r.sco == (Mqsco { crypto_hardware: r.sco.crypto_hardware, ..old(self).sco }),
            r.key_repo_password == old(self).key_repo_password,
            *final(self) == *final(r),
    {
        match hardware {
            Some(h) => {
                self.sco.crypto_hardware = h.0;
            },
            None => {
                self.sco.crypto_hardware = MqStr::empty();
            },
        }
        self
    }

    /// Set the certificate label; `None` leaves it blank.
    pub fn certificate_label(&mut self, label: Option<&CertificateLabel>) -> (r: &mut Self)
        ensures
            r.sco.certificate_label@ == match label {
                Some(l) => l.0@,
                None => Seq::new(64, |i: int| 0x20u8),
            },
            r.sco == (Mqsco { certificate_label: r.sco.certificate_label, ..old(self).sco }),
            r.key_repo_password == old(self).key_repo_password,
            *final(self) == *final(r),
    {
        match label {
            Some(l) => {
                self.sco.certificate_label = l.0;
            },
            None => {
                self.sco.certificate_label = MqStr::empty();
            },
        }
        self
    }

    /// Require FIPS certified cryptography, or not.
    pub fn fips_required(&mut self, is_required: bool) -> (r: &mut Self)
        ensures
            r.sco == (Mqsco {
                fips_required: if is_required {
                    MQSSL_FIPS_YES
                } else {
                    MQSSL_FIPS_NO
                },
                ..old(self).sco
            }),
            r.key_repo_password == old(self).key_repo_password,
            *final(self) == *final(r),
    {
        self.sco.fips_required = if is_required {
            MQSSL_FIPS_YES
        } else {
            MQSSL_FIPS_NO
        };
        self
    }

    /// Set the Suite B policy.
    pub fn suite_b_policy(&mut self, policy: [i32; 4]) -> (r: &mut Self)
        ensures
            r.sco == (Mqsco { encryption_policy_suite_b: policy, ..old(self).sco }),
            r.key_repo_password == old(self).key_repo_password,
            *final(self) == *final(r),
    {
        self.sco.encryption_policy_suite_b = policy;
        self
    }

    /// Set the certificate validation policy.
    pub fn cert_val_policy(&mut self, policy: i32) -> (r: &mut Self)
        ensures
            r.sco == (Mqsco { certificate_val_policy: policy, ..old(self).sco }),
            r.key_repo_password == old(self).key_repo_password,
            *final(self) == *final(r),
    {
        self.sco.certificate_val_policy = policy;
        self
    }

    /// Set the key reset count.
    pub fn key_reset_count(&mut self, count: i32) -> (r: &mut Self)
        ensures
            r.sco == (Mqsco { key_reset_count: count, ..old(self).sco }),
            r.key_repo_password == old(self).key_repo_password,
            *final(self) == *final(r),
    {
        self.sco.key_reset_count = count;
        self
    }

    /// Set or clear the key repository password.
    pub fn key_repo_password(&mut self, password: Option<S>) -> (r: &mut Self)
        ensures
            r.sco == old(self).sco,
            r.key_repo_password == password,
            *final(self) == *final(r),
    {
        self.key_repo_password = password;
        self
    }

    /// Set the key repository.
    pub fn key_repo(&mut self, repo: &KeyRepo) -> (r: &mut Self)
        ensures
            r.sco == (Mqsco { key_repository: repo.0, ..old(self).sco }),
            r.key_repo_password == old(self).key_repo_password,
            *final(self) == *final(r),
    {
        self.sco.key_repository = repo.0;
        self
    }
}

/// The TLS configuration built from TLS parameters, with the key repository password
/// attached when there is one.
impl<'a, S: Secret> StructBuilder<'a, Mqsco<'a>> for TlsSecret<S> {
    open spec fn spec_buildable(&self) -> bool {
        match self.key_repo_password {
            Some(p) => secret_bytes(p).len() <= i32::MAX,
            None => true,
        }
    }

    open spec fn spec_built(&self, sco: Mqsco<'a>) -> bool {
        &&& sco == Mqsco {
            key_repo_password: sco.key_repo_password,
            key_repo_password_length: sco.key_repo_password_length,
            ..self.sco
        }
        &&& match self.key_repo_password {
            Some(p) => spec_field_is(sco.key_repo_password, sco.key_repo_password_length, secret_bytes(p)),
            None => sco.key_repo_password is None && sco.key_repo_password_length
                == self.sco.key_repo_password_length,
        }
    }

    fn build(&'a self) -> (r: MqStruct<Mqsco<'a>>) {
        let mut sco: MqStruct<Mqsco<'a>> = MqStruct::new(self.sco);
        match &self.key_repo_password {
            Some(pwd) => {
                let secret = pwd.expose_secret();
                sco.struc.key_repo_password_length = secret.as_bytes().len() as i32;
                sco.struc.key_repo_password = mq_str_ptr(secret);
            },
            None => {
                sco.struc.key_repo_password = None;
            },
        }
        sco
    }
}

/// The TLS configuration built from TLS parameters.
impl<'a, S: Secret> StructOptionBuilder<'a, Mqsco<'a>> for TlsSecret<S> {
    open spec fn spec_option_buildable(&self) -> bool {
        self.spec_buildable()
    }

    open spec fn spec_option_built(&self, sco: Option<Mqsco<'a>>) -> bool {
        sco matches Some(c) && self.spec_built(c)
    }

    fn option_build(&'a self) -> (r: Option<MqStruct<Mqsco<'a>>>) {
        Some(self.build())
    }
}

impl<T> ClientDefinition<MqStruct<Mqcd>, T> {
    /// Set the cipher specification of the channel definition; `None` leaves it blank.
    pub fn cipher_spec(&mut self, spec: Option<&CipherSpec>) -> (r: &mut Self)
        ensures
            r.config.struc.ssl_cipher_spec@ == match spec {
                Some(c) => c.0@,
                None => Seq::new(32, |i: int| 0x20u8),
            },
            spec matches Some(c) ==> r.config.struc.ssl_cipher_spec == c.0,
            r.config.struc == (Mqcd { ssl_cipher_spec: r.config.struc.ssl_cipher_spec, ..old(self).config.struc }),
            r.tls == old(self).tls,
            r.balance == old(self).balance,
            *final(self) == *final(r),
    {
        match spec {
            Some(c) => {
                self.config.struc.ssl_cipher_spec = c.0;
            },
            None => {
                self.config.struc.ssl_cipher_spec = MqStr::empty();
            },
        }
        self
    }
}

impl<C, A> ClientDefinition<C, A> {
    /// The same definition with other TLS parameters.
    pub fn tls_options<T>(self, options: T) -> (r: ClientDefinition<C, T>)
        ensures
            r.config == self.config,
            r.tls == options,
            r.balance == self.balance,
    {
        let ClientDefinition { config, balance, .. } = self;
        ClientDefinition { config, tls: options, balance }
    }

    /// The same definition with other balancing options.
    pub fn balance_options(self, options: Option<Mqbno>) -> (r: Self)
        ensures
            r.config == self.config,
            r.tls == self.tls,
            r.balance == options,
    {
        let ClientDefinition { config, tls, .. } = self;
        ClientDefinition { config, tls, balance: options }
    }
}

/// A client connection whose channel definition the application gives.
pub type AppDefinedClient<T> = ClientDefinition<MqStruct<Mqcd>, T>;

impl<T> AppDefinedClient<T> {
    /// The same definition with a cipher specification and TLS parameters.
    pub fn tls<Y>(self, cipher: Option<&CipherSpec>, tls: Y) -> (r: ClientDefinition<MqStruct<Mqcd>, Y>)
        ensures
            r.config.struc.ssl_cipher_spec@ == match cipher {
                Some(c) => c.0@,
                None => Seq::new(32, |i: int| 0x20u8),
            },
            r.config.struc == (Mqcd { ssl_cipher_spec: r.config.struc.ssl_cipher_spec, ..self.config.struc }),
            r.tls == tls,
            r.balance == self.balance,
    {
        let mut mself = self;
        mself.cipher_spec(cipher);
        ClientDefinition { config: mself.config, tls, balance: mself.balance }
    }
}

impl AppDefinedClient<NoStruct> {
    /// The default client: the default client channel definition at version 12.
    fn default_client() -> (r: Self)
        ensures
            (Mqcd { version: 6, ..r.config.struc }).is_client_conn_default(),
            r.config.struc.version == MQCD_VERSION_12,
            r.balance is None,
    {
        let mut cd = Mqcd::client_conn_default();
        cd.version = MQCD_VERSION_12;
        Self::from_mqcd(MqStruct::new(cd))
    }

    /// A client with a channel definition, no TLS parameters and no balancing options.
    pub fn from_mqcd(config: MqStruct<Mqcd>) -> (r: Self)
        ensures
            r.config == config,
            r.balance is None,
    {
        ClientDefinition { config, tls: NoStruct, balance: None }
    }

    /// A client with a channel name, a connection name and an optional transport type.
    pub fn new_client(channel_name: &ChannelName, connection_name: &ConnectionName, transport: Option<
        i32,
    >) -> (r: Self)
        ensures
            r.config.struc.channel_name == channel_name.0,
            r.config.struc.connection_name == connection_name.0,
            r.config.struc.version == MQCD_VERSION_12,
            r.config.struc.transport_type == match transport {
                Some(t) => t,
                None => crate::constants::MQXPT_TCP,
            },
            r.config.struc.channel_type == crate::constants::MQCHT_CLNTCONN,
            r.config.struc.ssl_cipher_spec@ == Seq::new(32, |i: int| 0u8),
            r.balance is None,
    {
        let mut outcome = Self::default_client();
        match transport {
            Some(t) => {
                outcome.config.struc.transport_type = t;
            },
            None => {},
        }
        outcome.config.struc.channel_name = channel_name.0;
        outcome.config.struc.connection_name = connection_name.0;
        outcome
    }

    /// A client from a server definition `channel/transport/connection`.
    pub fn from_mqserver(server: &str) -> (r: Result<Self, MqServerSyntaxError>)
        ensures
            match spec_greedy_fields(server.spec_bytes()) {
                None => r matches Err(MqServerSyntaxError::InvalidFormat),
                Some((c, t, n)) => {
                    let names = mqserver_names(r);
                    spec_mqserver_outcome(names, c, t, n)
                },
            },
            r matches Ok(d) ==> {
                &&& d.config.struc.version == MQCD_VERSION_12
                &&& d.config.struc.channel_type == crate::constants::MQCHT_CLNTCONN
                &&& d.config.struc.ssl_cipher_spec@ == Seq::new(32, |i: int| 0u8)
                &&& d.balance is None
            },
    {
        match mqserver(server) {
            Ok((channel_name, connection_name, transport)) => Ok(
                Self::new_client(&channel_name, &connection_name, Some(transport)),
            ),
            Err(e) => Err(e),
        }
    }
}

/// The names and transport of a client definition, or its error.
pub open spec fn mqserver_names(r: Result<AppDefinedClient<NoStruct>, MqServerSyntaxError>) -> Result<
    (ChannelName, ConnectionName, i32),
    MqServerSyntaxError,
> {
    match r {
        Ok(d) => Ok(
            (ChannelName(d.config.struc.channel_name), ConnectionName(d.config.struc.connection_name), d.config.struc.transport_type),
        ),
        Err(e) => Err(e),
    }
}

/// Parse a server definition `channel/transport/connection` into its channel name,
/// connection name and transport type.
pub fn mqserver(server: &str) -> (r: Result<(ChannelName, ConnectionName, i32), MqServerSyntaxError>)
    ensures
        match spec_greedy_fields(server.spec_bytes()) {
            None => r matches Err(MqServerSyntaxError::InvalidFormat),
            Some((c, t, n)) => spec_mqserver_outcome(r, c, t, n),
        },
{
    match mqserver_split(server) {
        Some((channel, transport, connection_name)) => mqserver_from_parts(
            channel,
            transport,
            connection_name,
        ),
        None => Err(MqServerSyntaxError::InvalidFormat),
    }
}

/// The parameters of a connection: how to connect, the credentials and the application name.
#[derive(Debug, Clone, Default)]
pub struct ConnectionOptions<C, D> {
    pub method: D,
    pub credentials: C,
    pub app_name: Option<ApplName>,
}

impl<T> ConnectionOptions<NoStruct, T> {
    /// Connect with `method`, no credentials and the default application name.
    pub fn from_definition(method: T) -> (r: Self)
        ensures
            r.method == method,
            r.app_name is None,
    {
        ConnectionOptions { method, credentials: NoStruct, app_name: None }
    }
}

impl ConnectionOptions<NoStruct, DefaultBinding> {
    /// Connect with the default binding.
    pub fn default_binding() -> (r: Self)
        ensures
            r.app_name is None,
    {
        Self::from_definition(ExternalConfig)
    }
}

impl ConnectionOptions<NoStruct, LocalBinding> {
    /// Connect with a local binding.
    pub fn local_binding() -> (r: Self)
        ensures
            r.app_name is None,
    {
        Self::from_definition(ExternalConfig)
    }
}

impl ConnectionOptions<NoStruct, AppDefinedClient<NoStruct>> {
    /// Connect as a client to a server definition `channel/transport/connection`.
    pub fn from_mqserver(server: &str) -> (r: Result<Self, MqServerSyntaxError>)
        ensures
            match spec_greedy_fields(server.spec_bytes()) {
                None => r matches Err(MqServerSyntaxError::InvalidFormat),
                Some((c, t, n)) => {
                    let names = mqserver_names(
                        match r {
                            Ok(o) => Ok(o.method),
                            Err(e) => Err(e),
                        },
                    );
                    spec_mqserver_outcome(names, c, t, n)
                },
            },
            r matches Ok(o) ==> {
                &&& o.method.config.struc.version == MQCD_VERSION_12
                &&& o.method.config.struc.channel_type == crate::constants::MQCHT_CLNTCONN
                &&& o.method.config.struc.ssl_cipher_spec@ == Seq::new(32, |i: int| 0u8)
                &&& o.method.balance is None
                &&& o.app_name is None
            },
    {
        match ClientDefinition::from_mqserver(server) {
            Ok(d) => Ok(Self::from_definition(d)),
            Err(e) => Err(e),
        }
    }
}

impl<C, T> ConnectionOptions<C, AppDefinedClient<T>> {
    /// The same options with a cipher specification and TLS parameters for the client.
    pub fn tls<Y>(self, cipher: &CipherSpec, options: Y) -> (r: ConnectionOptions<C, AppDefinedClient<Y>>)
        ensures
            r.method.config.struc == (Mqcd { ssl_cipher_spec: cipher.0, ..self.method.config.struc }),
            r.method.tls == options,
            r.method.balance == self.method.balance,
            r.credentials == self.credentials,
            r.app_name == self.app_name,
    {
        let ConnectionOptions { method, credentials, app_name } = self;
        let mut method = method.tls_options(options);
        method.cipher_spec(Some(cipher));
        ConnectionOptions { method, credentials, app_name }
    }
}

impl<C, D, A> ConnectionOptions<C, ClientDefinition<D, A>> {
    /// The same options with other TLS parameters for the client.
    pub fn tls_options<T>(self, options: T) -> (r: ConnectionOptions<C, ClientDefinition<D, T>>)
        ensures
            r.method.config == self.method.config,
            r.method.tls == options,
            r.method.balance == self.method.balance,
            r.credentials == self.credentials,
            r.app_name == self.app_name,
    {
        ConnectionOptions {
            method: self.method.tls_options(options),
            credentials: self.credentials,
            app_name: self.app_name,
        }
    }
}

impl<C, D> ConnectionOptions<C, D> {
    /// The same options with another way of connecting.
    pub fn definition<E>(self, method: E) -> (r: ConnectionOptions<C, E>)
        ensures
            r.method == method,
            r.credentials == self.credentials,
            r.app_name == self.app_name,
    {
        let ConnectionOptions { credentials, app_name, .. } = self;
        ConnectionOptions { method, credentials, app_name }
    }

    /// The same options with credentials to authenticate with.
    pub fn credentials<A>(self, credentials: A) -> (r: ConnectionOptions<A, D>)
        ensures
            r.method == self.method,
            r.credentials == credentials,
            r.app_name == self.app_name,
    {
        let ConnectionOptions { method, app_name, .. } = self;
        ConnectionOptions { method, credentials, app_name }
    }

    /// The same options with an application name; `None` leaves the name that the MQ library
    /// assigns.
    pub fn application_name(self, name: Option<ApplName>) -> (r: Self)
        ensures
            r.method == self.method,
            r.credentials == self.credentials,
            r.app_name == name,
    {
        ConnectionOptions { app_name: name, ..self }
    }
}

} // verus!
