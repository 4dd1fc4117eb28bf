use vstd::prelude::*;
use vstd::string::StringSliceAdditionalSpecFns;

use crate::constants::{
    MQCCSI_APPL, MQCHT_CLNTCONN, MQCNO_NONE, MQCNO_VERSION_1, MQCNO_VERSION_2, MQCNO_VERSION_4,
    MQCNO_VERSION_5, MQCNO_VERSION_6, MQCNO_VERSION_8, MQCSP_AUTH_NONE, MQCSP_VERSION_1,
    MQCSP_VERSION_2, MQCSP_VERSION_3, MQOD_VERSION_1, MQOD_VERSION_4, MQOT_NONE, MQOT_Q,
    MQSCO_VERSION_1, MQSCO_VERSION_6, MQSSL_FIPS_NO, MQXPT_TCP, MQ_SUITE_B_NONE,
    MQ_SUITE_B_NOT_AVAILABLE,
};
use crate::mqstr::MqStr;
use crate::strings::EncodedString;

verus! {

/// An MQ structure holding a `T` whose reference fields live for `'ptr`.
#[derive(Debug, Clone, Copy)]
pub struct MqStruct<T> {
    pub struc: T,
}

impl<T> MqStruct<T> {
    /// Wrap a structure.
    pub fn new(struc: T) -> (s: Self)
        ensures
            s.struc == struc,
    {
        MqStruct { struc }
    }
}

/// The larger of two structure versions.
pub fn max_version(a: i32, b: i32) -> (r: i32)
    ensures
        r == if a >= b {
            a
        } else {
            b
        },
{
    if a >= b {
        a
    } else {
        b
    }
}

/// A variable length string field (`MQCHARV`): the referenced bytes, their length and CCSID.
#[derive(Debug, Clone, Copy)]
pub struct Mqcharv<'ptr> {
    pub vs: Option<&'ptr [u8]>,
    pub vs_offset: i32,
    pub vs_buf_size: i32,
    pub vs_length: i32,
    pub vs_ccsid: i32,
}

impl<'ptr> Mqcharv<'ptr> {
    /// An empty variable length string.
    pub fn empty() -> (r: Self)
        ensures
            r.vs is None,
            r.vs_offset == 0,
            r.vs_buf_size == 0,
            r.vs_length == 0,
            r.vs_ccsid == MQCCSI_APPL,
    {
        Mqcharv { vs: None, vs_offset: 0, vs_buf_size: 0, vs_length: 0, vs_ccsid: MQCCSI_APPL }
    }
}

/// The value of an optional CCSID in an MQ structure: zero for none.
pub open spec fn spec_ccsid_value(ccsid: Option<i32>) -> i32 {
    match ccsid {
        Some(c) => c,
        None => 0,
    }
}

/// Point a variable length string field at `data`.
pub fn set_mqcharv<'ptr>(mqcharv: &mut Mqcharv<'ptr>, data: &'ptr [u8], ccsid: Option<i32>)
    requires
        data@.len() <= i32::MAX,
    ensures
        *final(mqcharv) == (Mqcharv {
            vs: Some(data),
            vs_length: data@.len() as i32,
            vs_ccsid: spec_ccsid_value(ccsid),
            ..*old(mqcharv)
        }),
{
    mqcharv.vs = Some(data);
    mqcharv.vs_length = data.len() as i32;
    mqcharv.vs_ccsid = match ccsid {
        Some(c) => c,
        None => 0,
    };
}

impl<'a> MqStruct<Mqcharv<'a>> {
    /// A variable length string field (`MQCHARV`) that refers to an encoded string, with the
    /// buffer size equal to its length.
    pub fn from_encoded_str<S: EncodedString + ?Sized>(value: &'a S) -> (r: MqStruct<Mqcharv<'a>>)
        requires
            value.spec_data().len() <= i32::MAX,
        ensures
            r.struc.vs is Some,
            r.struc.vs.unwrap()@ == value.spec_data(),
            r.struc.vs_length == value.spec_data().len(),
            r.struc.vs_buf_size == value.spec_data().len(),
            r.struc.vs_ccsid == spec_ccsid_value(value.spec_ccsid()),
            r.struc.vs_offset == 0,
    {
        let data = value.data();
        let len = data.len() as i32;
        let ccsid = match value.ccsid() {
            Some(c) => c,
            None => 0,
        };
        MqStruct::new(Mqcharv { vs: Some(data), vs_offset: 0, vs_buf_size: len, vs_length: len, vs_ccsid: ccsid })
    }
}

/// The object descriptor fields (`MQOD`) used to open objects.
#[derive(Debug, Clone, Copy)]
pub struct Mqod<'ptr> {
    pub version: i32,
    pub object_type: i32,
    pub object_name: MqStr<48>,
    pub object_qmgr_name: MqStr<48>,
    pub alternate_user_id: MqStr<12>,
    pub resolved_q_name: MqStr<48>,
    pub resolved_qmgr_name: MqStr<48>,
    pub object_string: Mqcharv<'ptr>,
    pub selection_string: Mqcharv<'ptr>,
    pub res_object_string: Mqcharv<'ptr>,
    pub resolved_type: i32,
}

impl<'ptr> Mqcharv<'ptr> {
    /// An empty variable length string: no data, the application's CCSID.
    pub open spec fn is_empty(&self) -> bool {
        &&& self.vs is None
        &&& self.vs_offset == 0
        &&& self.vs_buf_size == 0
        &&& self.vs_length == 0
        &&& self.vs_ccsid == MQCCSI_APPL
    }
}

impl<'ptr> Mqod<'ptr> {
    /// The default object descriptor: version 1, a queue, names of nul bytes, empty
    /// strings, no resolved type.
    pub open spec fn is_default(&self) -> bool {
        &&& self.version == MQOD_VERSION_1
        &&& self.object_type == MQOT_Q
        &&& self.object_name@ == Seq::new(48, |i: int| 0u8)
        &&& self.object_qmgr_name@ == Seq::new(48, |i: int| 0u8)
        &&& self.alternate_user_id@ == Seq::new(12, |i: int| 0u8)
        &&& self.resolved_q_name@ == Seq::new(48, |i: int| 0u8)
        &&& self.resolved_qmgr_name@ == Seq::new(48, |i: int| 0u8)
        &&& self.object_string.is_empty()
        &&& self.selection_string.is_empty()
        &&& self.res_object_string.is_empty()
        &&& self.resolved_type == MQOT_NONE
    }

    /// The default object descriptor: version 1, a queue, names of nul bytes.
    pub fn default_value() -> (r: Self)
        ensures
            r.is_default(),
            r.version == MQOD_VERSION_1,
            r.object_type == MQOT_Q,
            r.object_string.vs is None,
            r.selection_string.vs is None,
            r.res_object_string.vs is None,
    {
        let r = Mqod {
            version: MQOD_VERSION_1,
            object_type: MQOT_Q,
            object_name: MqStr { data: [0u8; 48] },
            object_qmgr_name: MqStr { data: [0u8; 48] },
            alternate_user_id: MqStr { data: [0u8; 12] },
            resolved_q_name: MqStr { data: [0u8; 48] },
            resolved_qmgr_name: MqStr { data: [0u8; 48] },
            object_string: Mqcharv::empty(),
            selection_string: Mqcharv::empty(),
            res_object_string: Mqcharv::empty(),
            resolved_type: MQOT_NONE,
        };
        assert(r.object_name@ =~= Seq::new(48, |i: int| 0u8));
        assert(r.object_qmgr_name@ =~= Seq::new(48, |i: int| 0u8));
        assert(r.alternate_user_id@ =~= Seq::new(12, |i: int| 0u8));
        assert(r.resolved_q_name@ =~= Seq::new(48, |i: int| 0u8));
        assert(r.resolved_qmgr_name@ =~= Seq::new(48, |i: int| 0u8));
        r
    }
}

/// The subscription descriptor fields (`MQSD`) used to subscribe.
#[derive(Debug, Clone, Copy)]
pub struct Mqsd<'ptr> {
    pub version: i32,
    pub options: i32,
    pub object_name: MqStr<48>,
    pub object_string: Mqcharv<'ptr>,
    pub sub_name: Mqcharv<'ptr>,
    pub selection_string: Mqcharv<'ptr>,
}

/// The client channel definition fields (`MQCD`) of a client connection.
#[derive(Debug, Clone, Copy)]
pub struct Mqcd {
    pub version: i32,
    pub channel_name: MqStr<20>,
    pub channel_type: i32,
    pub transport_type: i32,
    pub connection_name: MqStr<264>,
    pub ssl_cipher_spec: MqStr<32>,
}

impl Mqcd {
    /// The default client connection channel definition: version 6, a client connection
    /// channel over TCP, names of nul bytes.
    pub open spec fn is_client_conn_default(&self) -> bool {
        &&& self.version == 6
        &&& self.channel_type == MQCHT_CLNTCONN
        &&& self.transport_type == MQXPT_TCP
        &&& self.channel_name@ == Seq::new(20, |i: int| 0u8)
        &&& self.connection_name@ == Seq::new(264, |i: int| 0u8)
        &&& self.ssl_cipher_spec@ == Seq::new(32, |i: int| 0u8)
    }

    /// The default client connection channel definition.
    pub fn client_conn_default() -> (r: Self)
        ensures
            r.is_client_conn_default(),
            r.version == 6,
            r.channel_type == MQCHT_CLNTCONN,
            r.transport_type == MQXPT_TCP,
            r.channel_name@ == Seq::new(20, |i: int| 0u8),
            r.connection_name@ == Seq::new(264, |i: int| 0u8),
            r.ssl_cipher_spec@ == Seq::new(32, |i: int| 0u8),
    {
        let r = Mqcd {
            version: 6,
            channel_name: MqStr { data: [0u8; 20] },
            channel_type: MQCHT_CLNTCONN,
            transport_type: MQXPT_TCP,
            connection_name: MqStr { data: [0u8; 264] },
            ssl_cipher_spec: MqStr { data: [0u8; 32] },
        };
        assert(r.channel_name@ =~= Seq::new(20, |i: int| 0u8));
        assert(r.connection_name@ =~= Seq::new(264, |i: int| 0u8));
        assert(r.ssl_cipher_spec@ =~= Seq::new(32, |i: int| 0u8));
        r
    }
}

/// The balancing options fields (`MQBNO`).
#[derive(Debug, Clone, Copy)]
pub struct Mqbno {
    pub version: i32,
    pub appl_type: i32,
    pub timeout: i32,
    pub options: i32,
}

impl Mqbno {
    /// The default balancing options: version 1, simple application, default timeout.
    pub open spec fn is_default(&self) -> bool {
        self.version == 1 && self.appl_type == 0 && self.timeout == -1 && self.options == 0
    }

    /// The default balancing options.
    pub fn default_value() -> (r: Self)
        ensures
            r.is_default(),
            r.version == 1,
            r.appl_type == 0,
            r.timeout == -1,
            r.options == 0,
    {
        Mqbno { version: 1, appl_type: 0, timeout: -1, options: 0 }
    }
}

/// An authentication information record (`MQAIR`).
#[derive(Debug, Clone, Copy)]
pub struct Mqair {
    pub version: i32,
    pub auth_info_type: i32,
}

/// The security parameters fields (`MQCSP`).
#[derive(Debug, Clone, Copy)]
pub struct Mqcsp<'ptr> {
    pub version: i32,
    pub authentication_type: i32,
    pub csp_user_id: Option<&'ptr [u8]>,
    pub csp_user_id_length: i32,
    pub csp_password: Option<&'ptr [u8]>,
    pub csp_password_length: i32,
    pub initial_key: Option<&'ptr [u8]>,
    pub initial_key_length: i32,
    pub token: Option<&'ptr [u8]>,
    pub token_length: i32,
}

impl<'ptr> Mqcsp<'ptr> {
    /// The default security parameters: version 1, no authentication, nothing attached.
    pub open spec fn is_default(&self) -> bool {
        &&& self.version == MQCSP_VERSION_1
        &&& self.authentication_type == MQCSP_AUTH_NONE
        &&& self.csp_user_id is None && self.csp_user_id_length == 0
        &&& self.csp_password is None && self.csp_password_length == 0
        &&& self.initial_key is None && self.initial_key_length == 0
        &&& self.token is None && self.token_length == 0
    }

    /// The default security parameters.
    pub fn default_value() -> (r: Self)
        ensures
            r.is_default(),
            r.version == MQCSP_VERSION_1,
            r.authentication_type == MQCSP_AUTH_NONE,
            r.csp_user_id is None && r.csp_user_id_length == 0,
            r.csp_password is None && r.csp_password_length == 0,
            r.initial_key is None && r.initial_key_length == 0,
            r.token is None && r.token_length == 0,
    {
        Mqcsp {
            version: MQCSP_VERSION_1,
            authentication_type: MQCSP_AUTH_NONE,
            csp_user_id: None,
            csp_user_id_length: 0,
            csp_password: None,
            csp_password_length: 0,
            initial_key: None,
            initial_key_length: 0,
            token: None,
            token_length: 0,
        }
    }
}

/// The TLS configuration fields (`MQSCO`).
#[derive(Debug, Clone, Copy)]
pub struct Mqsco<'ptr> {
    pub version: i32,
    pub key_repository: MqStr<256>,
    pub crypto_hardware: MqStr<256>,
    pub auth_info_recs: Option<&'ptr [Mqair]>,
    pub auth_info_rec_count: i32,
    pub key_reset_count: i32,
    pub fips_required: i32,
    pub encryption_policy_suite_b: [i32; 4],
    pub certificate_val_policy: i32,
    pub certificate_label: MqStr<64>,
    pub key_repo_password: Option<&'ptr [u8]>,
    pub key_repo_password_length: i32,
}

impl<'ptr> Mqsco<'ptr> {
    /// The default TLS configuration: version 1, names of nul bytes, no FIPS, no Suite B
    /// policy, nothing attached.
    pub open spec fn is_default(&self) -> bool {
        &&& self.version == MQSCO_VERSION_1
        &&& self.key_repository@ == Seq::new(256, |i: int| 0u8)
        &&& self.crypto_hardware@ == Seq::new(256, |i: int| 0u8)
        &&& self.certificate_label@ == Seq::new(64, |i: int| 0u8)
        &&& self.key_reset_count == 0
        &&& self.fips_required == MQSSL_FIPS_NO
        &&& self.encryption_policy_suite_b@ == seq![
            MQ_SUITE_B_NONE,
            MQ_SUITE_B_NOT_AVAILABLE,
            MQ_SUITE_B_NOT_AVAILABLE,
            MQ_SUITE_B_NOT_AVAILABLE,
        ]
        &&& self.certificate_val_policy == 0
        &&& self.key_repo_password is None
        &&& self.key_repo_password_length == 0
        &&& self.auth_info_recs is None
        &&& self.auth_info_rec_count == 0
    }

    /// The default TLS configuration.
    pub fn default_value() -> (r: Self)
        ensures
            r.is_default(),
            r.version == MQSCO_VERSION_1,
            r.key_reset_count == 0,
            r.fips_required == MQSSL_FIPS_NO,
            r.encryption_policy_suite_b@ == seq![
                MQ_SUITE_B_NONE,
                MQ_SUITE_B_NOT_AVAILABLE,
                MQ_SUITE_B_NOT_AVAILABLE,
                MQ_SUITE_B_NOT_AVAILABLE,
            ],
            r.certificate_val_policy == 0,
            r.key_repo_password is None,
            r.key_repo_password_length == 0,
            r.auth_info_recs is None,
            r.auth_info_rec_count == 0,
    {
        let r = Mqsco {
            version: MQSCO_VERSION_1,
            key_repository: MqStr { data: [0u8; 256] },
            crypto_hardware: MqStr { data: [0u8; 256] },
            auth_info_recs: None,
            auth_info_rec_count: 0,
            key_reset_count: 0,
            fips_required: MQSSL_FIPS_NO,
            encryption_policy_suite_b: [
                MQ_SUITE_B_NONE,
                MQ_SUITE_B_NOT_AVAILABLE,
                MQ_SUITE_B_NOT_AVAILABLE,
                MQ_SUITE_B_NOT_AVAILABLE,
            ],
            certificate_val_policy: 0,
            certificate_label: MqStr { data: [0u8; 64] },
            key_repo_password: None,
            key_repo_password_length: 0,
        };
        assert(r.key_repository@ =~= Seq::new(256, |i: int| 0u8));
        assert(r.crypto_hardware@ =~= Seq::new(256, |i: int| 0u8));
        assert(r.certificate_label@ =~= Seq::new(64, |i: int| 0u8));
        assert(r.encryption_policy_suite_b@ =~= seq![
            MQ_SUITE_B_NONE,
            MQ_SUITE_B_NOT_AVAILABLE,
            MQ_SUITE_B_NOT_AVAILABLE,
            MQ_SUITE_B_NOT_AVAILABLE,
        ]);
        r
    }
}

/// The connection options fields (`MQCNO`).
#[derive(Debug, Clone, Copy)]
pub struct Mqcno<'ptr> {
    pub version: i32,
    pub options: i32,
    pub client_conn: Option<&'ptr Mqcd>,
    pub ssl_config: Option<&'ptr Mqsco<'ptr>>,
    pub security_parms: Option<&'ptr Mqcsp<'ptr>>,
    pub ccdt_url: Option<&'ptr [u8]>,
    pub ccdt_url_length: i32,
    pub appl_name: MqStr<28>,
    pub balance_parms: Option<&'ptr Mqbno>,
    pub balance_parms_offset: i32,
    pub conn_tag: [u8; 128],
    pub connection_id: [u8; 24],
}

impl<'ptr> Mqcno<'ptr> {
    /// The default connection options: version 1, no options, nothing attached, a blank
    /// application name.
    pub open spec fn is_default(&self) -> bool {
        &&& self.version == MQCNO_VERSION_1
        &&& self.options == MQCNO_NONE
        &&& self.client_conn is None
        &&& self.ssl_config is None
        &&& self.security_parms is None
        &&& self.ccdt_url is None
        &&& self.ccdt_url_length == 0
        &&& self.balance_parms is None
        &&& self.balance_parms_offset == 0
        &&& self.appl_name@ == Seq::new(28, |i: int| 0x20u8)
    }

    /// The default connection options.
    pub fn default_value() -> (r: Self)
        ensures
            r.is_default(),
            r.version == MQCNO_VERSION_1,
            r.options == MQCNO_NONE,
            r.client_conn is None,
            r.ssl_config is None,
            r.security_parms is None,
            r.ccdt_url is None,
            r.ccdt_url_length == 0,
            r.balance_parms is None,
            r.appl_name@ == Seq::new(28, |i: int| 0x20u8),
    {
        let r = Mqcno {
            version: MQCNO_VERSION_1,
            options: MQCNO_NONE,
            client_conn: None,
            ssl_config: None,
            security_parms: None,
            ccdt_url: None,
            ccdt_url_length: 0,
            appl_name: MqStr { data: [0x20u8; 28] },
            balance_parms: None,
            balance_parms_offset: 0,
            conn_tag: [0u8; 128],
            connection_id: [0u8; 24],
        };
        assert(r.appl_name@ =~= Seq::new(28, |i: int| 0x20u8));
        r
    }
}

/// The location of string data in an MQ structure: `None` stands for a null pointer,
/// `Some` for the string's bytes (an empty string is passed as a nul terminated empty string).
pub fn mq_str_ptr<'ptr>(value: &'ptr str) -> (r: Option<&'ptr [u8]>)
    ensures
        r matches Some(b) && b@ == value.spec_bytes(),
{
    Some(value.as_bytes())
}

// Functions to attach references to an object descriptor.
impl<'ptr> MqStruct<Mqod<'ptr>> {
    /// Raise the version to at least `version`.
    pub fn set_min_version(&mut self, version: i32)
        ensures
            final(self).struc == (Mqod { version: spec_raised(old(self).struc.version, version), ..old(self).struc }),
    {
        self.struc.version = max_version(self.struc.version, version);
    }

    /// Attach a selection string; the descriptor is raised to version 4.
    pub fn attach_selection_string<S: EncodedString + ?Sized>(&mut self, selection: &'ptr S)
        requires
            selection.spec_data().len() <= i32::MAX,
        ensures
            final(self).struc.version == if old(self).struc.version >= MQOD_VERSION_4 {
                old(self).struc.version
            } else {
                MQOD_VERSION_4
            },
            final(self).struc.selection_string.vs matches Some(d) && d@ == selection.spec_data(),
            final(self).struc == (Mqod {
                version: final(self).struc.version,
                selection_string: Mqcharv {
                    vs: final(self).struc.selection_string.vs,
                    vs_length: selection.spec_data().len() as i32,
                    vs_ccsid: spec_ccsid_value(selection.spec_ccsid()),
                    ..old(self).struc.selection_string
                },
                ..old(self).struc
            }),
    {
        self.struc.version = max_version(MQOD_VERSION_4, self.struc.version);
        set_mqcharv(&mut self.struc.selection_string, selection.data(), selection.ccsid());
    }

    /// Attach an object string; the descriptor is raised to version 4.
    pub fn attach_object_string<S: EncodedString + ?Sized>(&mut self, object: &'ptr S)
        requires
            object.spec_data().len() <= i32::MAX,
        ensures
            final(self).struc.version == if old(self).struc.version >= MQOD_VERSION_4 {
                old(self).struc.version
            } else {
                MQOD_VERSION_4
            },
            final(self).struc.object_string.vs matches Some(d) && d@ == object.spec_data(),
            final(self).struc == (Mqod {
                version: final(self).struc.version,
                object_string: Mqcharv {
                    vs: final(self).struc.object_string.vs,
                    vs_length: object.spec_data().len() as i32,
                    vs_ccsid: spec_ccsid_value(object.spec_ccsid()),
                    ..old(self).struc.object_string
                },
                ..old(self).struc
            }),
    {
        self.struc.version = max_version(MQOD_VERSION_4, self.struc.version);
        set_mqcharv(&mut self.struc.object_string, object.data(), object.ccsid());
    }
}

impl<'ptr> MqStruct<Mqsd<'ptr>> {
    /// Attach an object string to a subscription descriptor.
    pub fn attach_object_string<S: EncodedString + ?Sized>(&mut self, object: &'ptr S)
        requires
            object.spec_data().len() <= i32::MAX,
        ensures
            final(self).struc.object_string.vs matches Some(d) && d@ == object.spec_data(),
            final(self).struc == (Mqsd {
                object_string: Mqcharv {
                    vs: final(self).struc.object_string.vs,
                    vs_length: object.spec_data().len() as i32,
                    vs_ccsid: spec_ccsid_value(object.spec_ccsid()),
                    ..old(self).struc.object_string
                },
                ..old(self).struc
            }),
    {
        set_mqcharv(&mut self.struc.object_string, object.data(), object.ccsid());
    }
}

/// The version after a structure's version is raised to at least `min`.
pub open spec fn spec_raised(version: i32, min: i32) -> i32 {
    if version >= min {
        version
    } else {
        min
    }
}

// Functions to attach references to connection options.
impl<'ptr> MqStruct<Mqcno<'ptr>> {
    /// Raise the version to at least `version`.
    pub fn set_min_version(&mut self, version: i32)
        ensures
            final(self).struc == (Mqcno { version: spec_raised(old(self).struc.version, version), ..old(self).struc }),
    {
        self.struc.version = max_version(self.struc.version, version);
    }

    /// Attach security parameters; the options are raised to version 5.
    pub fn attach_csp(&mut self, csp: &'ptr Mqcsp<'ptr>)
        ensures
            final(self).struc == (Mqcno {
                version: spec_raised(old(self).struc.version, MQCNO_VERSION_5),
                security_parms: Some(csp),
                ..old(self).struc
            }),
    {
        self.struc.version = max_version(MQCNO_VERSION_5, self.struc.version);
        self.struc.security_parms = Some(csp);
    }

    /// Attach a client channel definition; the options are raised to version 2.
    pub fn attach_cd(&mut self, cd: &'ptr Mqcd)
        ensures
            final(self).struc == (Mqcno {
                version: spec_raised(old(self).struc.version, MQCNO_VERSION_2),
                client_conn: Some(cd),
                ..old(self).struc
            }),
    {
        self.struc.version = max_version(MQCNO_VERSION_2, self.struc.version);
        self.struc.client_conn = Some(cd);
    }

    /// Attach a TLS configuration; the options are raised to version 4.
    pub fn attach_sco(&mut self, sco: &'ptr Mqsco<'ptr>)
        ensures
            final(self).struc == (Mqcno {
                version: spec_raised(old(self).struc.version, MQCNO_VERSION_4),
                ssl_config: Some(sco),
                ..old(self).struc
            }),
    {
        self.struc.version = max_version(MQCNO_VERSION_4, self.struc.version);
        self.struc.ssl_config = Some(sco);
    }

    /// Attach balancing options; the options are raised to version 8.
    pub fn attach_bno(&mut self, bno: &'ptr Mqbno)
        ensures
            final(self).struc == (Mqcno {
                version: spec_raised(old(self).struc.version, MQCNO_VERSION_8),
                balance_parms: Some(bno),
                ..old(self).struc
            }),
    {
        self.struc.version = max_version(MQCNO_VERSION_8, self.struc.version);
        self.struc.balance_parms = Some(bno);
    }

    /// Attach a client channel definition table URL; the options are raised to version 6.
    pub fn attach_ccdt(&mut self, url: &'ptr str)
        requires
            url.spec_bytes().len() <= i32::MAX,
        ensures
            final(self).struc.version == spec_raised(old(self).struc.version, MQCNO_VERSION_6),
            final(self).struc.ccdt_url matches Some(b) && b@ == url.spec_bytes(),
            final(self).struc.ccdt_url_length == url.spec_bytes().len(),
            final(self).struc == (Mqcno {
                version: final(self).struc.version,
                ccdt_url: final(self).struc.ccdt_url,
                ccdt_url_length: final(self).struc.ccdt_url_length,
                ..old(self).struc
            }),
    {
        self.struc.version = max_version(MQCNO_VERSION_6, self.struc.version);
        self.struc.ccdt_url = mq_str_ptr(url);
        self.struc.ccdt_url_length = url.len() as i32;
    }

    /// Attach optional security parameters.
    pub fn set_csp(&mut self, csp: Option<&'ptr Mqcsp<'ptr>>)
        ensures
            final(self).struc == (Mqcno { security_parms: csp, ..old(self).struc }),
    {
        self.struc.security_parms = csp;
    }

    /// Attach an optional TLS configuration.
    pub fn set_sco(&mut self, sco: Option<&'ptr Mqsco<'ptr>>)
        ensures
            final(self).struc == (Mqcno { ssl_config: sco, ..old(self).struc }),
    {
        self.struc.ssl_config = sco;
    }

    /// Set the application name; `None` leaves it blank.
    pub fn set_app_name(&mut self, app: Option<&MqStr<28>>)
        ensures
            final(self).struc.appl_name@ == match app {
                Some(a) => a@,
                None => Seq::new(28, |i: int| 0x20u8),
            },
            final(self).struc.options == old(self).struc.options,
            final(self).struc.version == old(self).struc.version,
    {
        match app {
            Some(a) => {
                self.struc.appl_name = *a;
            },
            None => {
                let e = MqStr::<28>::empty();
                self.struc.appl_name = e;
            },
        }
    }
}

// Functions to attach references to security parameters.
impl<'ptr> MqStruct<Mqcsp<'ptr>> {
    /// Raise the version to at least `version`.
    pub fn set_min_version(&mut self, version: i32)
        ensures
            final(self).struc == (Mqcsp { version: spec_raised(old(self).struc.version, version), ..old(self).struc }),
    {
        self.struc.version = max_version(self.struc.version, version);
    }

    /// Attach a password.
    pub fn attach_password(&mut self, password: &'ptr str)
        requires
            password.spec_bytes().len() <= i32::MAX,
        ensures
            final(self).struc.csp_password matches Some(b) && b@ == password.spec_bytes(),
            final(self).struc.csp_password_length == password.spec_bytes().len(),
            final(self).struc == (Mqcsp {
                csp_password: final(self).struc.csp_password,
                csp_password_length: final(self).struc.csp_password_length,
                ..old(self).struc
            }),
    {
        self.struc.csp_password = mq_str_ptr(password);
        self.struc.csp_password_length = password.len() as i32;
    }

    /// Attach a user identifier.
    pub fn attach_userid(&mut self, userid: &'ptr str)
        requires
            userid.spec_bytes().len() <= i32::MAX,
        ensures
            final(self).struc.csp_user_id matches Some(b) && b@ == userid.spec_bytes(),
            final(self).struc.csp_user_id_length == userid.spec_bytes().len(),
            final(self).struc == (Mqcsp {
                csp_user_id: final(self).struc.csp_user_id,
                csp_user_id_length: final(self).struc.csp_user_id_length,
                ..old(self).struc
            }),
    {
        self.struc.csp_user_id = mq_str_ptr(userid);
        self.struc.csp_user_id_length = userid.len() as i32;
    }

    /// Attach an authentication token; the parameters are raised to version 3.
    pub fn attach_token(&mut self, token: &'ptr str)
        requires
            token.spec_bytes().len() <= i32::MAX,
        ensures
            final(self).struc.token matches Some(b) && b@ == token.spec_bytes(),
            final(self).struc.token_length == token.spec_bytes().len(),
            final(self).struc == (Mqcsp {
                version: spec_raised(old(self).struc.version, MQCSP_VERSION_3),
                token: final(self).struc.token,
                token_length: final(self).struc.token_length,
                ..old(self).struc
            }),
    {
        self.struc.version = max_version(MQCSP_VERSION_3, self.struc.version);
        self.struc.token = mq_str_ptr(token);
        self.struc.token_length = token.len() as i32;
    }

    /// Attach an initial key; the parameters are raised to version 2.
    pub fn attach_initial_key(&mut self, initial_key: &'ptr str)
        requires
            initial_key.spec_bytes().len() <= i32::MAX,
        ensures
            final(self).struc.initial_key matches Some(b) && b@ == initial_key.spec_bytes(),
            final(self).struc.initial_key_length == initial_key.spec_bytes().len(),
            final(self).struc == (Mqcsp {
                version: spec_raised(old(self).struc.version, MQCSP_VERSION_2),
                initial_key: final(self).struc.initial_key,
                initial_key_length: final(self).struc.initial_key_length,
                ..old(self).struc
            }),
    {
        self.struc.version = max_version(MQCSP_VERSION_2, self.struc.version);
        self.struc.initial_key = mq_str_ptr(initial_key);
        self.struc.initial_key_length = initial_key.len() as i32;
    }
}

// Functions to attach references to TLS configuration.
impl<'ptr> MqStruct<Mqsco<'ptr>> {
    /// Raise the version to at least `version`.
    pub fn set_min_version(&mut self, version: i32)
        ensures
            final(self).struc == (Mqsco { version: spec_raised(old(self).struc.version, version), ..old(self).struc }),
    {
        self.struc.version = max_version(self.struc.version, version);
    }

    /// Attach a key repository password, or clear it; the configuration is raised to version 6.
    pub fn attach_repo_password(&mut self, password: Option<&'ptr str>)
        requires
            password matches Some(p) ==> p.spec_bytes().len() <= i32::MAX,
        ensures
            final(self).struc.version == spec_raised(old(self).struc.version, MQSCO_VERSION_6),
            match password {
                Some(p) => final(self).struc.key_repo_password matches Some(b) && b@ == p.spec_bytes()
                    && final(self).struc.key_repo_password_length == p.spec_bytes().len(),
                None => final(self).struc.key_repo_password is None
                    && final(self).struc.key_repo_password_length == 0,
            },
            final(self).struc == (Mqsco {
                version: final(self).struc.version,
                key_repo_password: final(self).struc.key_repo_password,
                key_repo_password_length: final(self).struc.key_repo_password_length,
                ..old(self).struc
            }),
    {
        self.struc.version = max_version(MQSCO_VERSION_6, self.struc.version);
        match password {
            Some(ps) => {
                self.struc.key_repo_password = mq_str_ptr(ps);
                self.struc.key_repo_password_length = ps.len() as i32;
            },
            None => {
                self.struc.key_repo_password = None;
                self.struc.key_repo_password_length = 0;
            },
        }
    }

    /// Attach authentication information records.
    pub fn attach_auth_info_records(&mut self, air: &'ptr [Mqair])
        requires
            air@.len() <= i32::MAX,
        ensures
            final(self).struc == (Mqsco {
                auth_info_recs: Some(air),
                auth_info_rec_count: air@.len() as i32,
                ..old(self).struc
            }),
    {
        self.struc.auth_info_recs = Some(air);
        self.struc.auth_info_rec_count = air.len() as i32;
    }
}

impl MqStruct<Mqcd> {
    /// Raise the version to at least `version`.
    pub fn set_min_version(&mut self, version: i32)
        ensures
            final(self).struc == (Mqcd { version: spec_raised(old(self).struc.version, version), ..old(self).struc }),
    {
        self.struc.version = max_version(self.struc.version, version);
    }
}

/// Raising a structure's version never lowers it, reaches at least the requested version, and
/// raising it again to the same or a lower version changes nothing.
pub proof fn law_min_version_monotone(version: i32, a: i32, b: i32)
    ensures
        spec_raised(version, a) >= version,
        spec_raised(version, a) >= a,
        b <= a ==> spec_raised(spec_raised(version, a), b) == spec_raised(version, a),
        spec_raised(spec_raised(version, a), b) == spec_raised(spec_raised(version, b), a),
{
}

/// A value that builds an MQ structure of type `T`, which may refer to the value.
pub trait StructBuilder<'a, T> {
    /// The structure can be built: the strings fit the MQ length fields.
    spec fn spec_buildable(&self) -> bool;

    /// The structure built.
    spec fn spec_built(&self, struc: T) -> bool;

    /// Build the structure.
    fn build(&'a self) -> (r: MqStruct<T>)
        requires
            self.spec_buildable(),
        ensures
            self.spec_built(r.struc),
    ;
}

/// A value that builds an MQ structure of type `T`, or none.
pub trait StructOptionBuilder<'a, T> {
    /// The structure can be built: the strings fit the MQ length fields.
    spec fn spec_option_buildable(&self) -> bool;

    /// The structure built, if any.
    spec fn spec_option_built(&self, struc: Option<T>) -> bool;

    /// Build the structure, if any.
    fn option_build(&'a self) -> (r: Option<MqStruct<T>>)
        requires
            self.spec_option_buildable(),
        ensures
            self.spec_option_built(
                match r {
                    Some(m) => Some(m.struc),
                    None => None,
                },
            ),
    ;
}

/// A structure builds a copy of itself.
impl<'a, T: Copy> StructBuilder<'a, T> for MqStruct<T> {
    open spec fn spec_buildable(&self) -> bool {
        true
    }

    open spec fn spec_built(&self, struc: T) -> bool {
        struc == self.struc
    }

    fn build(&'a self) -> (r: MqStruct<T>) {
        *self
    }
}

/// No structure.
#[derive(Debug, Clone, Copy, Default)]
pub struct NoStruct;

/// No structure builds none.
impl<'a, T> StructOptionBuilder<'a, T> for NoStruct {
    open spec fn spec_option_buildable(&self) -> bool {
        true
    }

    open spec fn spec_option_built(&self, struc: Option<T>) -> bool {
        struc is None
    }

    fn option_build(&'a self) -> (r: Option<MqStruct<T>>) {
        None
    }
}

} // verus!
