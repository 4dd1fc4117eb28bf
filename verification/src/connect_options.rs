use vstd::prelude::*;
use crate::mqserver::{mqserver_split, mqserver_split_lazy, spec_greedy_fields, spec_lazy_fields};
use vstd::string::StringSliceAdditionalSpecFns;

use crate::constants::{
    MQCD_VERSION_7, MQCNO_CLIENT_BINDING, MQCNO_LOCAL_BINDING, MQCNO_NONE, MQCNO_VERSION_2,
    MQCNO_VERSION_4, MQCNO_VERSION_5, MQCNO_VERSION_6, MQCNO_VERSION_7, MQCNO_VERSION_8,
    MQCSP_AUTH_ID_TOKEN, MQCSP_AUTH_NONE, MQCSP_AUTH_USER_ID_AND_PWD, MQCSP_VERSION_2,
    MQCSP_VERSION_3, MQSCO_VERSION_1, MQSCO_VERSION_2, MQSCO_VERSION_3, MQSCO_VERSION_4,
    MQSCO_VERSION_5, MQSCO_VERSION_6, MQSSL_FIPS_NO, MQSSL_FIPS_YES, MQ_SUITE_B_128_BIT,
    MQ_SUITE_B_192_BIT, MQ_SUITE_B_NONE, MQ_SUITE_B_NOT_AVAILABLE, MQXPT_LU62, MQXPT_NETBIOS,
    MQXPT_SPX, MQXPT_TCP,
};
use vstd::utf8::encode_utf8;

use crate::mqstr::{all_pad, bytes_eq, space_padded, MqStr};
use crate::structs::{spec_raised, MqStruct, Mqbno, Mqcd, Mqcno, Mqcsp, Mqsco};
use crate::types::{
    ApplName, CertificateLabel, ChannelName, CipherSpec, ConnectionName, CryptoHardware, KeyRepo, KeyRepoPassword, QueueManagerName,
};

verus! {

/// The set of MQ structures that a connection option fills in, as bits.
pub type ConnectStructFlags = usize;

/// No structure beyond the connection options.
pub const CONNECT_HAS_NONE: ConnectStructFlags = 0b00000;

/// The connection options (`MQCNO`) are used; they always are.
pub const CONNECT_HAS_CNO: ConnectStructFlags = 0b00000;

/// The TLS configuration (`MQSCO`) is used.
pub const CONNECT_HAS_SCO: ConnectStructFlags = 0b00010;

/// The client channel definition (`MQCD`) is used.
pub const CONNECT_HAS_CD: ConnectStructFlags = 0b00100;

/// The security parameters (`MQCSP`) are used.
pub const CONNECT_HAS_CSP: ConnectStructFlags = 0b01000;

/// The balancing options (`MQBNO`) are used.
pub const CONNECT_HAS_BNO: ConnectStructFlags = 0b10000;

/// The structures that MQ reads when a connection is made.
#[derive(Debug, Clone, Copy)]
pub struct ConnectStructs<'ptr> {
    pub cno: MqStruct<Mqcno<'ptr>>,
    pub sco: MqStruct<Mqsco<'ptr>>,
    pub csp: MqStruct<Mqcsp<'ptr>>,
    pub cd: MqStruct<Mqcd>,
    pub bno: MqStruct<Mqbno>,
}

impl<'ptr> ConnectStructs<'ptr> {
    /// Every structure holds its default value.
    pub open spec fn is_default(&self) -> bool {
        &&& self.cno.struc.is_default()
        &&& self.sco.struc.is_default()
        &&& self.csp.struc.is_default()
        &&& self.cd.struc.is_client_conn_default()
        &&& self.bno.struc.is_default()
    }

    /// The structures with their default values.
    pub fn default_value() -> (r: Self)
        ensures
            r.is_default(),
    {
        ConnectStructs {
            cno: MqStruct::new(Mqcno::default_value()),
            sco: MqStruct::new(Mqsco::default_value()),
            csp: MqStruct::new(Mqcsp::default_value()),
            cd: MqStruct::new(Mqcd::client_conn_default()),
            bno: MqStruct::new(Mqbno::default_value()),
        }
    }
}

impl<'ptr> Default for ConnectStructs<'ptr> {
    fn default() -> (r: Self)
        ensures
            r.is_default(),
    {
        Self::default_value()
    }
}

/// A value that fills in the structures of a connection.
///
/// `apply_param` changes the structures as `spec_apply` relates them and returns the set of
/// structures it used; `queue_manager_name` names the queue manager to connect to.
pub trait ConnectOption<'a> {
    /// The queue manager to connect to, when the option names one.
    spec fn spec_queue_manager_name(&self) -> Option<QueueManagerName>;

    /// The option can be applied: the strings it attaches fit the MQ length fields.
    spec fn spec_applicable(&self) -> bool;

    /// Whether the option can be applied.
    fn applicable(&self) -> (b: bool)
        ensures
            b == self.spec_applicable(),
    ;

    /// The structures the option uses.
    spec fn spec_flags(&self) -> ConnectStructFlags;

    /// How applying the option changes the structures.
    spec fn spec_apply(&self, before: ConnectStructs<'a>, after: ConnectStructs<'a>) -> bool;

    /// The queue manager to connect to, when the option names one.
    fn queue_manager_name(&self) -> (r: Option<QueueManagerName>)
        ensures
            r == self.spec_queue_manager_name(),
    ;

    /// Fill in the structures; returns the structures used.
    fn apply_param(&self, structs: &mut ConnectStructs<'a>) -> (flags: ConnectStructFlags)
        requires
            self.spec_applicable(),
        ensures
            flags == self.spec_flags(),
            self.spec_apply(*old(structs), *final(structs)),
    ;
}

/// Nothing to apply.
impl<'a> ConnectOption<'a> for () {
    open spec fn spec_queue_manager_name(&self) -> Option<QueueManagerName> {
        None
    }

    open spec fn spec_applicable(&self) -> bool {
        true
    }

    fn applicable(&self) -> (b: bool) {
        true
    }

    open spec fn spec_flags(&self) -> ConnectStructFlags {
        CONNECT_HAS_CNO
    }

    open spec fn spec_apply(&self, before: ConnectStructs<'a>, after: ConnectStructs<'a>) -> bool {
        after == before
    }

    fn queue_manager_name(&self) -> (r: Option<QueueManagerName>) {
        None
    }

    fn apply_param(&self, structs: &mut ConnectStructs<'a>) -> (flags: ConnectStructFlags) {
        CONNECT_HAS_CNO
    }
}

/// An absent option changes nothing and uses no structure.
impl<'a, O: ConnectOption<'a>> ConnectOption<'a> for Option<O> {
    open spec fn spec_queue_manager_name(&self) -> Option<QueueManagerName> {
        match self {
            Some(o) => o.spec_queue_manager_name(),
            None => None,
        }
    }

    open spec fn spec_applicable(&self) -> bool {
        match self {
            Some(o) => o.spec_applicable(),
            None => true,
        }
    }

    fn applicable(&self) -> (b: bool) {
        match self {
            Some(o) => o.applicable(),
            None => true,
        }
    }

    open spec fn spec_flags(&self) -> ConnectStructFlags {
        match self {
            Some(o) => o.spec_flags(),
            None => CONNECT_HAS_NONE,
        }
    }

    open spec fn spec_apply(&self, before: ConnectStructs<'a>, after: ConnectStructs<'a>) -> bool {
        match self {
            Some(o) => o.spec_apply(before, after),
            None => after == before,
        }
    }

    fn queue_manager_name(&self) -> (r: Option<QueueManagerName>) {
        match self {
            Some(o) => o.queue_manager_name(),
            None => None,
        }
    }

    fn apply_param(&self, structs: &mut ConnectStructs<'a>) -> (flags: ConnectStructFlags) {
        match self {
            Some(o) => o.apply_param(structs),
            None => CONNECT_HAS_NONE,
        }
    }
}

/// Two options: the queue manager name of the first that names one; the second is applied
/// first, then the first.
impl<'a, A: ConnectOption<'a>, B: ConnectOption<'a>> ConnectOption<'a> for (A, B) {
    open spec fn spec_queue_manager_name(&self) -> Option<QueueManagerName> {
        if self.0.spec_queue_manager_name() is Some {
            self.0.spec_queue_manager_name()
        } else {
            self.1.spec_queue_manager_name()
        }
    }

    open spec fn spec_applicable(&self) -> bool {
        self.0.spec_applicable() && self.1.spec_applicable()
    }

    fn applicable(&self) -> (b: bool) {
        self.0.applicable() && self.1.applicable()
    }

    open spec fn spec_flags(&self) -> ConnectStructFlags {
        self.1.spec_flags() | self.0.spec_flags()
    }

    open spec fn spec_apply(&self, before: ConnectStructs<'a>, after: ConnectStructs<'a>) -> bool {
        exists|mid: ConnectStructs<'a>|
            #![trigger self.1.spec_apply(before, mid)]
            self.1.spec_apply(before, mid) && self.0.spec_apply(mid, after)
    }

    fn queue_manager_name(&self) -> (r: Option<QueueManagerName>) {
        let name = self.0.queue_manager_name();
        if name.is_some() {
            return name;
        }
        self.1.queue_manager_name()
    }

    fn apply_param(&self, structs: &mut ConnectStructs<'a>) -> (flags: ConnectStructFlags) {
        let ghost before = *structs;
        let f1 = self.1.apply_param(structs);
        let ghost mid = *structs;
        let f0 = self.0.apply_param(structs);
        assert(self.1.spec_apply(before, mid));
        f1 | f0
    }
}

/// Three options: the queue manager name of the first that names one; they are applied from
/// the last to the first.
impl<'a, A: ConnectOption<'a>, B: ConnectOption<'a>, C: ConnectOption<'a>> ConnectOption<'a> for (
    A,
    B,
    C,
) {
    open spec fn spec_queue_manager_name(&self) -> Option<QueueManagerName> {
        if self.0.spec_queue_manager_name() is Some {
            self.0.spec_queue_manager_name()
        } else if self.1.spec_queue_manager_name() is Some {
            self.1.spec_queue_manager_name()
        } else {
            self.2.spec_queue_manager_name()
        }
    }

    open spec fn spec_applicable(&self) -> bool {
        self.0.spec_applicable() && self.1.spec_applicable() && self.2.spec_applicable()
    }

    fn applicable(&self) -> (b: bool) {
        self.0.applicable() && self.1.applicable() && self.2.applicable()
    }

    open spec fn spec_flags(&self) -> ConnectStructFlags {
        self.2.spec_flags() | self.1.spec_flags() | self.0.spec_flags()
    }

    open spec fn spec_apply(&self, before: ConnectStructs<'a>, after: ConnectStructs<'a>) -> bool {
        exists|m1: ConnectStructs<'a>, m2: ConnectStructs<'a>|
            #![trigger self.2.spec_apply(before, m1), self.1.spec_apply(m1, m2)]
            self.2.spec_apply(before, m1) && self.1.spec_apply(m1, m2) && self.0.spec_apply(
                m2,
                after,
            )
    }

    fn queue_manager_name(&self) -> (r: Option<QueueManagerName>) {
        let name = self.0.queue_manager_name();
        if name.is_some() {
            return name;
        }
        let name = self.1.queue_manager_name();
        if name.is_some() {
            return name;
        }
        self.2.queue_manager_name()
    }

    fn apply_param(&self, structs: &mut ConnectStructs<'a>) -> (flags: ConnectStructFlags) {
        let ghost before = *structs;
        let f2 = self.2.apply_param(structs);
        let ghost m1 = *structs;
        let f1 = self.1.apply_param(structs);
        let ghost m2 = *structs;
        let f0 = self.0.apply_param(structs);
        assert(self.2.spec_apply(before, m1) && self.1.spec_apply(m1, m2));
        f2 | f1 | f0
    }
}

/// The connection options word with the binding bits replaced by `bits`.
pub open spec fn spec_with_binding(options: i32, bits: i32) -> i32 {
    (options & !(MQCNO_CLIENT_BINDING | MQCNO_LOCAL_BINDING)) | bits
}

/// The connection options word switched to a client connection.
pub open spec fn spec_with_client(options: i32) -> i32 {
    (options & !MQCNO_LOCAL_BINDING) | MQCNO_CLIENT_BINDING
}

/// The structures with only the connection options word changed.
pub open spec fn spec_with_options<'a>(s: ConnectStructs<'a>, options: i32) -> ConnectStructs<'a> {
    ConnectStructs { cno: MqStruct { struc: Mqcno { options, ..s.cno.struc } }, ..s }
}

/// The binding mode of a connection (`MQCNO_*_BINDING`).
#[derive(Debug, Clone, Copy, PartialEq, Eq, Structural)]
pub enum Binding {
    /// The default binding of the MQ library.
    Default,
    /// A local connection (`MQCNO_LOCAL_BINDING`).
    Local,
    /// A client connection (`MQCNO_CLIENT_BINDING`).
    Client,
}

impl Binding {
    /// The option bits of a binding mode.
    pub open spec fn spec_bits(self) -> i32 {
        match self {
            Binding::Default => MQCNO_NONE,
            Binding::Local => MQCNO_LOCAL_BINDING,
            Binding::Client => MQCNO_CLIENT_BINDING,
        }
    }

    /// The option bits of a binding mode.
    pub fn bits(&self) -> (r: i32)
        ensures
            r == self.spec_bits(),
    {
        match self {
            Binding::Default => MQCNO_NONE,
            Binding::Local => MQCNO_LOCAL_BINDING,
            Binding::Client => MQCNO_CLIENT_BINDING,
        }
    }
}

impl Default for Binding {
    fn default() -> (r: Self)
        ensures
            r == Binding::Default,
    {
        Binding::Default
    }
}

/// The binding replaces the binding bits of the connection options.
impl<'a> ConnectOption<'a> for Binding {
    open spec fn spec_queue_manager_name(&self) -> Option<QueueManagerName> {
        None
    }

    open spec fn spec_applicable(&self) -> bool {
        true
    }

    fn applicable(&self) -> (b: bool) {
        true
    }

    open spec fn spec_flags(&self) -> ConnectStructFlags {
        CONNECT_HAS_CNO
    }

    open spec fn spec_apply(&self, before: ConnectStructs<'a>, after: ConnectStructs<'a>) -> bool {
        after == spec_with_options(before, spec_with_binding(before.cno.struc.options, self.spec_bits()))
    }

    fn queue_manager_name(&self) -> (r: Option<QueueManagerName>) {
        None
    }

    fn apply_param(&self, structs: &mut ConnectStructs<'a>) -> (flags: ConnectStructFlags) {
        let bits = self.bits();
        structs.cno.struc.options = (structs.cno.struc.options & !(MQCNO_CLIENT_BINDING
            | MQCNO_LOCAL_BINDING)) | bits;
        CONNECT_HAS_CNO
    }
}

/// A queue manager name selects the queue manager and changes no structure.
impl<'a> ConnectOption<'a> for QueueManagerName {
    open spec fn spec_queue_manager_name(&self) -> Option<QueueManagerName> {
        Some(*self)
    }

    open spec fn spec_applicable(&self) -> bool {
        true
    }

    fn applicable(&self) -> (b: bool) {
        true
    }

    open spec fn spec_flags(&self) -> ConnectStructFlags {
        CONNECT_HAS_CNO
    }

    open spec fn spec_apply(&self, before: ConnectStructs<'a>, after: ConnectStructs<'a>) -> bool {
        after == before
    }

    fn queue_manager_name(&self) -> (r: Option<QueueManagerName>) {
        Some(*self)
    }

    fn apply_param(&self, structs: &mut ConnectStructs<'a>) -> (flags: ConnectStructFlags) {
        CONNECT_HAS_CNO
    }
}

/// Connection option bits (`MQCNO_*`) to add to the connection options.
#[derive(Debug, Clone, Copy, PartialEq, Eq, Structural)]
pub struct MqcnoOptions(pub i32);

/// The bits are added to the connection options.
impl<'a> ConnectOption<'a> for MqcnoOptions {
    open spec fn spec_queue_manager_name(&self) -> Option<QueueManagerName> {
        None
    }

    open spec fn spec_applicable(&self) -> bool {
        true
    }

    fn applicable(&self) -> (b: bool) {
        true
    }

    open spec fn spec_flags(&self) -> ConnectStructFlags {
        CONNECT_HAS_CNO
    }

    open spec fn spec_apply(&self, before: ConnectStructs<'a>, after: ConnectStructs<'a>) -> bool {
        after == spec_with_options(before, before.cno.struc.options | self.0)
    }

    fn queue_manager_name(&self) -> (r: Option<QueueManagerName>) {
        None
    }

    fn apply_param(&self, structs: &mut ConnectStructs<'a>) -> (flags: ConnectStructFlags) {
        structs.cno.struc.options = structs.cno.struc.options | self.0;
        CONNECT_HAS_CNO
    }
}

/// The application name is set in the connection options, raised to version 7.
impl<'a> ConnectOption<'a> for ApplName {
    open spec fn spec_queue_manager_name(&self) -> Option<QueueManagerName> {
        None
    }

    open spec fn spec_applicable(&self) -> bool {
        true
    }

    fn applicable(&self) -> (b: bool) {
        true
    }

    open spec fn spec_flags(&self) -> ConnectStructFlags {
        CONNECT_HAS_CNO
    }

    open spec fn spec_apply(&self, before: ConnectStructs<'a>, after: ConnectStructs<'a>) -> bool {
        after == ConnectStructs {
            cno: MqStruct {
                struc: Mqcno {
                    version: spec_raised(before.cno.struc.version, MQCNO_VERSION_7),
                    appl_name: self.0,
                    ..before.cno.struc
                },
            },
            ..before
        }
    }

    fn queue_manager_name(&self) -> (r: Option<QueueManagerName>) {
        None
    }

    fn apply_param(&self, structs: &mut ConnectStructs<'a>) -> (flags: ConnectStructFlags) {
        structs.cno.set_min_version(MQCNO_VERSION_7);
        structs.cno.struc.appl_name = self.0;
        CONNECT_HAS_CNO
    }
}

/// The cipher specification is set in the channel definition, raised to version 7.
impl<'a> ConnectOption<'a> for CipherSpec {
    open spec fn spec_queue_manager_name(&self) -> Option<QueueManagerName> {
        None
    }

    open spec fn spec_applicable(&self) -> bool {
        true
    }

    fn applicable(&self) -> (b: bool) {
        true
    }

    open spec fn spec_flags(&self) -> ConnectStructFlags {
        CONNECT_HAS_CD
    }

    open spec fn spec_apply(&self, before: ConnectStructs<'a>, after: ConnectStructs<'a>) -> bool {
        after == ConnectStructs {
            cd: MqStruct {
                struc: Mqcd {
                    version: spec_raised(before.cd.struc.version, MQCD_VERSION_7),
                    ssl_cipher_spec: self.0,
                    ..before.cd.struc
                },
            },
            ..before
        }
    }

    fn queue_manager_name(&self) -> (r: Option<QueueManagerName>) {
        None
    }

    fn apply_param(&self, structs: &mut ConnectStructs<'a>) -> (flags: ConnectStructFlags) {
        structs.cd.set_min_version(MQCD_VERSION_7);
        structs.cd.struc.ssl_cipher_spec = self.0;
        CONNECT_HAS_CD
    }
}

/// The URL of a client channel definition table; the connection becomes a client connection.
#[derive(Debug, Clone, Copy)]
pub struct Ccdt<'url>(pub &'url str);

/// The table URL is attached to the connection options, raised to version 6, and the binding
/// becomes a client binding.
impl<'url> ConnectOption<'url> for Ccdt<'url> {
    open spec fn spec_queue_manager_name(&self) -> Option<QueueManagerName> {
        None
    }

    open spec fn spec_applicable(&self) -> bool {
        self.0.spec_bytes().len() <= i32::MAX
    }

    fn applicable(&self) -> (b: bool) {
        self.0.as_bytes().len() <= i32::MAX as usize
    }

    open spec fn spec_flags(&self) -> ConnectStructFlags {
        CONNECT_HAS_CNO
    }

    open spec fn spec_apply(&self, before: ConnectStructs<'url>, after: ConnectStructs<'url>) -> bool {
        &&& after.cno.struc.ccdt_url matches Some(b) && b@ == self.0.spec_bytes()
        &&& after == ConnectStructs {
            cno: MqStruct {
                struc: Mqcno {
                    version: spec_raised(before.cno.struc.version, MQCNO_VERSION_6),
                    options: spec_with_client(before.cno.struc.options),
                    ccdt_url: after.cno.struc.ccdt_url,
                    ccdt_url_length: self.0.spec_bytes().len() as i32,
                    ..before.cno.struc
                },
            },
            ..before
        }
    }

    fn queue_manager_name(&self) -> (r: Option<QueueManagerName>) {
        None
    }

    fn apply_param(&self, structs: &mut ConnectStructs<'url>) -> (flags: ConnectStructFlags) {
        structs.cno.struc.options = (structs.cno.struc.options & !MQCNO_LOCAL_BINDING)
            | MQCNO_CLIENT_BINDING;
        structs.cno.attach_ccdt(self.0);
        CONNECT_HAS_CNO
    }
}

/// The balancing options replace those of the connection, raised to version 8.
impl<'a> ConnectOption<'a> for Mqbno {
    open spec fn spec_queue_manager_name(&self) -> Option<QueueManagerName> {
        None
    }

    open spec fn spec_applicable(&self) -> bool {
        true
    }

    fn applicable(&self) -> (b: bool) {
        true
    }

    open spec fn spec_flags(&self) -> ConnectStructFlags {
        CONNECT_HAS_BNO
    }

    open spec fn spec_apply(&self, before: ConnectStructs<'a>, after: ConnectStructs<'a>) -> bool {
        after == ConnectStructs {
            bno: MqStruct { struc: *self },
            cno: MqStruct {
                struc: Mqcno {
                    version: spec_raised(before.cno.struc.version, MQCNO_VERSION_8),
                    ..before.cno.struc
                },
            },
            ..before
        }
    }

    fn queue_manager_name(&self) -> (r: Option<QueueManagerName>) {
        None
    }

    fn apply_param(&self, structs: &mut ConnectStructs<'a>) -> (flags: ConnectStructFlags) {
        structs.bno.struc = *self;
        structs.cno.set_min_version(MQCNO_VERSION_8);
        CONNECT_HAS_BNO
    }
}

/// The security parameters replace those of the connection, raised to version 5.
impl<'a> ConnectOption<'a> for Mqcsp<'a> {
    open spec fn spec_queue_manager_name(&self) -> Option<QueueManagerName> {
        None
    }

    open spec fn spec_applicable(&self) -> bool {
        true
    }

    fn applicable(&self) -> (b: bool) {
        true
    }

    open spec fn spec_flags(&self) -> ConnectStructFlags {
        CONNECT_HAS_CSP
    }

    open spec fn spec_apply(&self, before: ConnectStructs<'a>, after: ConnectStructs<'a>) -> bool {
        after == ConnectStructs {
            csp: MqStruct { struc: *self },
            cno: MqStruct {
                struc: Mqcno {
                    version: spec_raised(before.cno.struc.version, MQCNO_VERSION_5),
                    ..before.cno.struc
                },
            },
            ..before
        }
    }

    fn queue_manager_name(&self) -> (r: Option<QueueManagerName>) {
        None
    }

    fn apply_param(&self, structs: &mut ConnectStructs<'a>) -> (flags: ConnectStructFlags) {
        structs.csp.struc = *self;
        structs.cno.set_min_version(MQCNO_VERSION_5);
        CONNECT_HAS_CSP
    }
}

/// The TLS configuration replaces that of the connection, raised to version 4.
impl<'a> ConnectOption<'a> for Mqsco<'a> {
    open spec fn spec_queue_manager_name(&self) -> Option<QueueManagerName> {
        None
    }

    open spec fn spec_applicable(&self) -> bool {
        true
    }

    fn applicable(&self) -> (b: bool) {
        true
    }

    open spec fn spec_flags(&self) -> ConnectStructFlags {
        CONNECT_HAS_SCO
    }

    open spec fn spec_apply(&self, before: ConnectStructs<'a>, after: ConnectStructs<'a>) -> bool {
        after == ConnectStructs {
            sco: MqStruct { struc: *self },
            cno: MqStruct {
                struc: Mqcno {
                    version: spec_raised(before.cno.struc.version, MQCNO_VERSION_4),
                    ..before.cno.struc
                },
            },
            ..before
        }
    }

    fn queue_manager_name(&self) -> (r: Option<QueueManagerName>) {
        None
    }

    fn apply_param(&self, structs: &mut ConnectStructs<'a>) -> (flags: ConnectStructFlags) {
        structs.sco.struc = *self;
        structs.cno.set_min_version(MQCNO_VERSION_4);
        CONNECT_HAS_SCO
    }
}

/// The channel definition replaces that of the connection, raised to version 2, and the
/// binding becomes a client binding.
impl<'a> ConnectOption<'a> for Mqcd {
    open spec fn spec_queue_manager_name(&self) -> Option<QueueManagerName> {
        None
    }

    open spec fn spec_applicable(&self) -> bool {
        true
    }

    fn applicable(&self) -> (b: bool) {
        true
    }

    open spec fn spec_flags(&self) -> ConnectStructFlags {
        CONNECT_HAS_CD
    }

    open spec fn spec_apply(&self, before: ConnectStructs<'a>, after: ConnectStructs<'a>) -> bool {
        after == ConnectStructs {
            cd: MqStruct { struc: *self },
            cno: MqStruct {
                struc: Mqcno {
                    version: spec_raised(before.cno.struc.version, MQCNO_VERSION_2),
                    options: spec_with_client(before.cno.struc.options),
                    ..before.cno.struc
                },
            },
            ..before
        }
    }

    fn queue_manager_name(&self) -> (r: Option<QueueManagerName>) {
        None
    }

    fn apply_param(&self, structs: &mut ConnectStructs<'a>) -> (flags: ConnectStructFlags) {
        structs.cd.struc = *self;
        structs.cno.set_min_version(MQCNO_VERSION_2);
        structs.cno.struc.options = (structs.cno.struc.options & !MQCNO_LOCAL_BINDING)
            | MQCNO_CLIENT_BINDING;
        CONNECT_HAS_CD
    }
}

/// A secret that is not shown by `Debug`.
#[derive(Clone, Copy)]
pub struct ProtectedSecret<T>(pub T);

impl<T> ProtectedSecret<T> {
    /// Protect a secret.
    pub fn new(secret: T) -> (s: Self)
        ensures
            s.0 == secret,
    {
        ProtectedSecret(secret)
    }
}

/// A value that holds a secret and shows it only on request.
pub trait Secret<'y, Y: ?Sized> {
    /// The secret.
    spec fn spec_secret(&self) -> &'y Y;

    /// The secret.
    fn expose_secret(&self) -> (r: &'y Y)
        ensures
            r == self.spec_secret(),
    ;
}

impl<'t, T: ?Sized> Secret<'t, T> for ProtectedSecret<&'t T> {
    open spec fn spec_secret(&self) -> &'t T {
        self.0
    }

    fn expose_secret(&self) -> (r: &'t T) {
        self.0
    }
}

/// The initial key of a connection, held in a secret.
#[derive(Debug, Clone, Copy)]
pub struct InitialKeySecret<S>(pub S);

/// An initial key held in a protected secret.
pub type InitialKey<S> = InitialKeySecret<ProtectedSecret<S>>;

/// The initial key is attached to the security parameters, raised to version 2.
impl<'cred, S: Secret<'cred, str>> ConnectOption<'cred> for InitialKeySecret<S> {
    open spec fn spec_queue_manager_name(&self) -> Option<QueueManagerName> {
        None
    }

    open spec fn spec_applicable(&self) -> bool {
        self.0.spec_secret().spec_bytes().len() <= i32::MAX
    }

    fn applicable(&self) -> (b: bool) {
        self.0.expose_secret().as_bytes().len() <= i32::MAX as usize
    }

    open spec fn spec_flags(&self) -> ConnectStructFlags {
        CONNECT_HAS_CSP
    }

    open spec fn spec_apply(&self, before: ConnectStructs<'cred>, after: ConnectStructs<'cred>) -> bool {
        let key = self.0.spec_secret().spec_bytes();
        &&& after.csp.struc.initial_key matches Some(b) && b@ == key
        &&& after == ConnectStructs {
            csp: MqStruct {
                struc: Mqcsp {
                    version: spec_raised(before.csp.struc.version, MQCSP_VERSION_2),
                    initial_key: after.csp.struc.initial_key,
                    initial_key_length: key.len() as i32,
                    ..before.csp.struc
                },
            },
            ..before
        }
    }

    fn queue_manager_name(&self) -> (r: Option<QueueManagerName>) {
        None
    }

    fn apply_param(&self, structs: &mut ConnectStructs<'cred>) -> (flags: ConnectStructFlags) {
        let initial_key = self.0.expose_secret();
        structs.csp.attach_initial_key(initial_key);
        CONNECT_HAS_CSP
    }
}

/// The credentials of a connection.
#[derive(Debug, Clone, Copy)]
pub enum CredentialsSecret<'cred, S> {
    /// No authentication.
    Default,
    /// A user identifier and its password.
    User(&'cred str, S),
    /// An authentication token.
    Token(S),
}

/// Credentials held in protected secrets.
pub type Credentials<'cred, S> = CredentialsSecret<'cred, ProtectedSecret<S>>;

/// The credentials are set in the security parameters: the authentication type, and the
/// user identifier with its password or the token.
impl<'cred, S: Secret<'cred, str>> ConnectOption<'cred> for CredentialsSecret<'cred, S> {
    open spec fn spec_queue_manager_name(&self) -> Option<QueueManagerName> {
        None
    }

    open spec fn spec_applicable(&self) -> bool {
        match self {
            CredentialsSecret::Default => true,
            CredentialsSecret::User(user, password) => user.spec_bytes().len() <= i32::MAX
                && password.spec_secret().spec_bytes().len() <= i32::MAX,
            CredentialsSecret::Token(token) => token.spec_secret().spec_bytes().len() <= i32::MAX,
        }
    }

    fn applicable(&self) -> (b: bool) {
        match self {
            CredentialsSecret::Default => true,
            CredentialsSecret::User(user, password) => user.as_bytes().len() <= i32::MAX as usize
                && password.expose_secret().as_bytes().len() <= i32::MAX as usize,
            CredentialsSecret::Token(token) => token.expose_secret().as_bytes().len() <= i32::MAX as usize,
        }
    }

    open spec fn spec_flags(&self) -> ConnectStructFlags {
        CONNECT_HAS_CSP
    }

    open spec fn spec_apply(&self, before: ConnectStructs<'cred>, after: ConnectStructs<'cred>) -> bool {
        let b = before.csp.struc;
        let a = after.csp.struc;
        &&& after == ConnectStructs { csp: after.csp, ..before }
        &&& match self {
            CredentialsSecret::Default => a == Mqcsp { authentication_type: MQCSP_AUTH_NONE, ..b },
            CredentialsSecret::User(user, password) => {
                &&& a.csp_password matches Some(p) && p@ == password.spec_secret().spec_bytes()
                &&& a.csp_user_id matches Some(u) && u@ == user.spec_bytes()
                &&& a == Mqcsp {
                    authentication_type: MQCSP_AUTH_USER_ID_AND_PWD,
                    csp_password: a.csp_password,
                    csp_password_length: password.spec_secret().spec_bytes().len() as i32,
                    csp_user_id: a.csp_user_id,
                    csp_user_id_length: user.spec_bytes().len() as i32,
                    ..b
                }
            },
            CredentialsSecret::Token(token) => {
                &&& a.token matches Some(t) && t@ == token.spec_secret().spec_bytes()
                &&& a == Mqcsp {
                    version: spec_raised(b.version, MQCSP_VERSION_3),
                    authentication_type: MQCSP_AUTH_ID_TOKEN,
                    token: a.token,
                    token_length: token.spec_secret().spec_bytes().len() as i32,
                    ..b
                }
            },
        }
    }

    fn queue_manager_name(&self) -> (r: Option<QueueManagerName>) {
        None
    }

    fn apply_param(&self, structs: &mut ConnectStructs<'cred>) -> (flags: ConnectStructFlags) {
        match self {
            CredentialsSecret::Default => {
                structs.csp.struc.authentication_type = MQCSP_AUTH_NONE;
            },
            CredentialsSecret::User(user, password) => {
                let password = password.expose_secret();
                structs.csp.struc.authentication_type = MQCSP_AUTH_USER_ID_AND_PWD;
                structs.csp.attach_password(password);
                structs.csp.attach_userid(user);
            },
            CredentialsSecret::Token(token) => {
                let token = token.expose_secret();
                structs.csp.struc.authentication_type = MQCSP_AUTH_ID_TOKEN;
                structs.csp.attach_token(token);
            },
        }
        CONNECT_HAS_CSP
    }
}

/// The password of the key repository is attached to the TLS configuration.
impl<'a, T: Secret<'a, str> + Copy> ConnectOption<'a> for KeyRepoPassword<T> {
    open spec fn spec_queue_manager_name(&self) -> Option<QueueManagerName> {
        None
    }

    open spec fn spec_applicable(&self) -> bool {
        self.0.spec_secret().spec_bytes().len() <= i32::MAX
    }

    fn applicable(&self) -> (b: bool) {
        self.0.expose_secret().as_bytes().len() <= i32::MAX as usize
    }

    open spec fn spec_flags(&self) -> ConnectStructFlags {
        CONNECT_HAS_SCO
    }

    open spec fn spec_apply(&self, before: ConnectStructs<'a>, after: ConnectStructs<'a>) -> bool {
        let pw = self.0.spec_secret().spec_bytes();
        &&& after.sco.struc.key_repo_password matches Some(b) && b@ == pw
        &&& after == ConnectStructs {
            sco: MqStruct {
                struc: Mqsco {
                    version: spec_raised(before.sco.struc.version, MQSCO_VERSION_6),
                    key_repo_password: after.sco.struc.key_repo_password,
                    key_repo_password_length: pw.len() as i32,
                    ..before.sco.struc
                },
            },
            ..before
        }
    }

    fn queue_manager_name(&self) -> (r: Option<QueueManagerName>) {
        None
    }

    fn apply_param(&self, structs: &mut ConnectStructs<'a>) -> (flags: ConnectStructFlags) {
        structs.sco.attach_repo_password(Some(self.0.expose_secret()));
        CONNECT_HAS_SCO
    }
}

/// The Suite B policy of a TLS connection.
#[derive(Debug, Clone, Copy, PartialEq, Eq, Structural)]
pub enum SuiteB {
    /// No Suite B policy.
    Unset,
    /// The Suite B strengths of at least this many bits.
    Min(usize),
}

impl SuiteB {
    /// The four policy values of `MQSCO.EncryptionPolicySuiteB`.
    pub open spec fn spec_policy(self) -> Seq<i32> {
        match self {
            SuiteB::Unset => seq![
                MQ_SUITE_B_NONE,
                MQ_SUITE_B_NOT_AVAILABLE,
                MQ_SUITE_B_NOT_AVAILABLE,
                MQ_SUITE_B_NOT_AVAILABLE,
            ],
            SuiteB::Min(min_size) => if min_size <= 128 {
                seq![
                    MQ_SUITE_B_128_BIT,
                    MQ_SUITE_B_192_BIT,
                    MQ_SUITE_B_NOT_AVAILABLE,
                    MQ_SUITE_B_NOT_AVAILABLE,
                ]
            } else if min_size <= 192 {
                seq![
                    MQ_SUITE_B_192_BIT,
                    MQ_SUITE_B_NOT_AVAILABLE,
                    MQ_SUITE_B_NOT_AVAILABLE,
                    MQ_SUITE_B_NOT_AVAILABLE,
                ]
            } else {
                seq![
                    MQ_SUITE_B_NOT_AVAILABLE,
                    MQ_SUITE_B_NOT_AVAILABLE,
                    MQ_SUITE_B_NOT_AVAILABLE,
                    MQ_SUITE_B_NOT_AVAILABLE,
                ]
            },
        }
    }

    /// The four policy values: for a minimum strength, the strengths of 128 and 192 bits that
    /// reach it, in that order, then unavailable entries.
    pub fn into_policy(self) -> (r: [i32; 4])
        ensures
            r@ == self.spec_policy(),
    {
        match self {
            SuiteB::Unset => {
                let r = [
                    MQ_SUITE_B_NONE,
                    MQ_SUITE_B_NOT_AVAILABLE,
                    MQ_SUITE_B_NOT_AVAILABLE,
                    MQ_SUITE_B_NOT_AVAILABLE,
                ];
                assert(r@ =~= self.spec_policy());
                r
            },
            SuiteB::Min(min_size) => {
                let mut result = [
                    MQ_SUITE_B_NOT_AVAILABLE,
                    MQ_SUITE_B_NOT_AVAILABLE,
                    MQ_SUITE_B_NOT_AVAILABLE,
                    MQ_SUITE_B_NOT_AVAILABLE,
                ];
                // The strengths of 128 and 192 bits, in order, that reach the minimum.
                let mut next: usize = 0;
                if 128 >= min_size {
                    result[next] = MQ_SUITE_B_128_BIT;
                    next = next + 1;
                }
                if 192 >= min_size {
                    result[next] = MQ_SUITE_B_192_BIT;
                }
                assert(result@ =~= self.spec_policy());
                result
            },
        }
    }
}

/// The TLS parameters of a connection: a TLS configuration and a cipher specification.
#[derive(Debug, Clone, Copy)]
pub struct Tls<'pw>(pub MqStruct<Mqsco<'pw>>, pub CipherSpec);

/// The view of an optional fixed width name: its bytes, or `N` spaces when absent.
pub open spec fn spec_name_or_blank<const N: usize>(name: Option<MqStr<N>>) -> Seq<u8> {
    match name {
        Some(n) => n@,
        None => Seq::new(N as nat, |i: int| 0x20u8),
    }
}

impl<'pw> Tls<'pw> {
    /// Default TLS parameters: the default TLS configuration and a blank cipher specification.
    pub fn default_value() -> (r: Self)
        ensures
            r.0.struc.is_default(),
            r.1.0@ == Seq::new(32, |i: int| 0x20u8),
    {
        Tls(MqStruct::new(Mqsco::default_value()), CipherSpec(MqStr::empty()))
    }

    /// TLS parameters with a key repository, a certificate label and a cipher specification;
    /// the configuration is raised to version 5.
    pub fn new(repo: &KeyRepo, label: Option<&CertificateLabel>, cipher: &CipherSpec) -> (r: Self)
        ensures
            r.0.struc.version == MQSCO_VERSION_5,
            r.0.struc.key_repository == repo.0,
            r.0.struc.certificate_label@ == spec_name_or_blank(
                match label {
                    Some(l) => Some(l.0),
                    None => None,
                },
            ),
            r.0.struc.crypto_hardware@ == Seq::new(256, |i: int| 0u8),
            r.0.struc.key_reset_count == 0,
            r.0.struc.fips_required == MQSSL_FIPS_NO,
            r.0.struc.encryption_policy_suite_b@ == SuiteB::Unset.spec_policy(),
            r.0.struc.certificate_val_policy == 0,
            r.0.struc.key_repo_password is None,
            r.0.struc.key_repo_password_length == 0,
            r.0.struc.auth_info_recs is None,
            r.0.struc.auth_info_rec_count == 0,
            r.1 == *cipher,
    {
        let mut tls = Self::default_value();
        tls.key_repo(repo);
        tls.certificate_label(label);
        tls.1 = *cipher;
        tls
    }

    /// Set the cryptographic hardware configuration; `None` leaves it blank.
    pub fn crypto_hardware(&mut self, hardware: Option<&CryptoHardware>) -> (r: &mut Self)
        ensures
            r.0.struc.crypto_hardware@ == spec_name_or_blank(
                match hardware {
                    Some(h) => Some(h.0),
                    None => None,
                },
            ),
            *r == Tls(
                MqStruct {
                    struc: Mqsco { crypto_hardware: r.0.struc.crypto_hardware, ..old(self).0.struc },
                },
                old(self).1,
            ),
            *final(self) == *final(r),
    {
        match hardware {
            Some(ch) => {
                self.0.struc.crypto_hardware = ch.0;
            },
            None => {
                self.0.struc.crypto_hardware = MqStr::empty();
            },
        }
        self
    }

    /// Set the certificate label; `None` leaves it blank. The configuration is raised to
    /// version 5.
    pub fn certificate_label(&mut self, label: Option<&CertificateLabel>) -> (r: &mut Self)
        ensures
            r.0.struc.certificate_label@ == spec_name_or_blank(
                match label {
                    Some(l) => Some(l.0),
                    None => None,
                },
            ),
            *r == Tls(
                MqStruct {
                    struc: Mqsco {
                        version: spec_raised(old(self).0.struc.version, MQSCO_VERSION_5),
                        certificate_label: r.0.struc.certificate_label,
                        ..old(self).0.struc
                    },
                },
                old(self).1,
            ),
            *final(self) == *final(r),
    {
        self.0.set_min_version(MQSCO_VERSION_5);
        match label {
            Some(cl) => {
                self.0.struc.certificate_label = cl.0;
            },
            None => {
                self.0.struc.certificate_label = MqStr::empty();
            },
        }
        self
    }

    /// Require FIPS certified cryptography, or not; the configuration is raised to version 2.
    pub fn fips_required(&mut self, is_required: bool) -> (r: &mut Self)
        ensures
            *r == Tls(
                MqStruct {
                    struc: Mqsco {
                        version: spec_raised(old(self).0.struc.version, MQSCO_VERSION_2),
                        fips_required: if is_required {
                            MQSSL_FIPS_YES
                        } else {
                            MQSSL_FIPS_NO
                        },
                        ..old(self).0.struc
                    },
                },
                old(self).1,
            ),
            *final(self) == *final(r),
    {
        self.0.set_min_version(MQSCO_VERSION_2);
        self.0.struc.fips_required = if is_required {
            MQSSL_FIPS_YES
        } else {
            MQSSL_FIPS_NO
        };
        self
    }

    /// Set the Suite B policy; the configuration is raised to version 3.
    pub fn suite_b_policy(&mut self, policy: [i32; 4]) -> (r: &mut Self)
        ensures
            *r == Tls(
                MqStruct {
                    struc: Mqsco {
                        version: spec_raised(old(self).0.struc.version, MQSCO_VERSION_3),
                        encryption_policy_suite_b: policy,
                        ..old(self).0.struc
                    },
                },
                old(self).1,
            ),
            *final(self) == *final(r),
    {
        self.0.set_min_version(MQSCO_VERSION_3);
        self.0.struc.encryption_policy_suite_b = policy;
        self
    }

    /// Set the certificate validation policy; the configuration is raised to version 4.
    pub fn cert_val_policy(&mut self, policy: i32) -> (r: &mut Self)
        ensures
            *r == Tls(
                MqStruct {
                    struc: Mqsco {
                        version: spec_raised(old(self).0.struc.version, MQSCO_VERSION_4),
                        certificate_val_policy: policy,
                        ..old(self).0.struc
                    },
                },
                old(self).1,
            ),
            *final(self) == *final(r),
    {
        self.0.set_min_version(MQSCO_VERSION_4);
        self.0.struc.certificate_val_policy = policy;
        self
    }

    /// Set the key reset count; the configuration is raised to version 2.
    pub fn key_reset_count(&mut self, count: i32) -> (r: &mut Self)
        ensures
            *r == Tls(
                MqStruct {
                    struc: Mqsco {
                        version: spec_raised(old(self).0.struc.version, MQSCO_VERSION_2),
                        key_reset_count: count,
                        ..old(self).0.struc
                    },
                },
                old(self).1,
            ),
            *final(self) == *final(r),
    {
        self.0.set_min_version(MQSCO_VERSION_2);
        self.0.struc.key_reset_count = count;
        self
    }

    /// Attach the password of the key repository, or clear it; the configuration is raised
    /// to version 6.
    pub fn key_repo_password<S: Secret<'pw, str> + Copy>(&mut self, password: Option<S>) -> (r: &mut Self)
        requires
            password matches Some(p) ==> p.spec_secret().spec_bytes().len() <= i32::MAX,
        ensures
            match password {
                Some(p) => r.0.struc.key_repo_password matches Some(b) && b@
                    == p.spec_secret().spec_bytes() && r.0.struc.key_repo_password_length
                    == p.spec_secret().spec_bytes().len(),
                None => r.0.struc.key_repo_password is None && r.0.struc.key_repo_password_length
                    == 0,
            },
            *r == Tls(
                MqStruct {
                    struc: Mqsco {
                        version: spec_raised(old(self).0.struc.version, MQSCO_VERSION_6),
                        key_repo_password: r.0.struc.key_repo_password,
                        key_repo_password_length: r.0.struc.key_repo_password_length,
                        ..old(self).0.struc
                    },
                },
                old(self).1,
            ),
            *final(self) == *final(r),
    {
        let exposed = match password {
            Some(p) => Some(p.expose_secret()),
            None => None,
        };
        self.0.attach_repo_password(exposed);
        self
    }

    /// Set the key repository.
    pub fn key_repo(&mut self, repo: &KeyRepo) -> (r: &mut Self)
        ensures
            *r == Tls(
                MqStruct { struc: Mqsco { key_repository: repo.0, ..old(self).0.struc } },
                old(self).1,
            ),
            *final(self) == *final(r),
    {
        self.0.struc.key_repository = repo.0;
        self
    }
}

impl<'pw> Default for Tls<'pw> {
    fn default() -> (r: Self)
        ensures
            r.0.struc.is_default(),
            r.1.0@ == Seq::new(32, |i: int| 0x20u8),
    {
        Self::default_value()
    }
}

/// The TLS configuration replaces that of the connection, and the cipher specification is
/// then applied.
impl<'tls> ConnectOption<'tls> for Tls<'tls> {
    open spec fn spec_queue_manager_name(&self) -> Option<QueueManagerName> {
        None
    }

    open spec fn spec_applicable(&self) -> bool {
        true
    }

    fn applicable(&self) -> (b: bool) {
        true
    }

    open spec fn spec_flags(&self) -> ConnectStructFlags {
        CONNECT_HAS_SCO | CONNECT_HAS_CD
    }

    open spec fn spec_apply(&self, before: ConnectStructs<'tls>, after: ConnectStructs<'tls>) -> bool {
        self.1.spec_apply(ConnectStructs { sco: self.0, ..before }, after)
    }

    fn queue_manager_name(&self) -> (r: Option<QueueManagerName>) {
        None
    }

    fn apply_param(&self, structs: &mut ConnectStructs<'tls>) -> (flags: ConnectStructFlags) {
        structs.sco = self.0;
        let f = self.1.apply_param(structs);
        CONNECT_HAS_SCO | f
    }
}

/// Why a server definition of the form `channel/transport/connection` was refused.
#[derive(Debug, Clone)]
pub enum MqServerSyntaxError {
    /// The definition is not of the form `channel/transport/connection`.
    InvalidFormat,
    /// The channel name is not valid.
    ChannelFormat(String),
    /// The connection name is not valid.
    ConnectionNameFormat(String),
    /// The transport is not one of `TCP`, `LU62`, `NETBIOS` and `SPX`.
    UnrecognizedTransport(String),
}

/// The transport type (`MQXPT_*`) named by the bytes `TCP`, `LU62`, `NETBIOS` or `SPX`.
pub open spec fn spec_transport(name: Seq<u8>) -> Option<i32> {
    if name == seq![84u8, 67u8, 80u8] {
        Some(MQXPT_TCP)
    } else if name == seq![76u8, 85u8, 54u8, 50u8] {
        Some(MQXPT_LU62)
    } else if name == seq![78u8, 69u8, 84u8, 66u8, 73u8, 79u8, 83u8] {
        Some(MQXPT_NETBIOS)
    } else if name == seq![83u8, 80u8, 88u8] {
        Some(MQXPT_SPX)
    } else {
        None
    }
}

/// The transport type named by `TCP`, `LU62`, `NETBIOS` or `SPX`.
pub fn transport_code(name: &str) -> (r: Option<i32>)
    ensures
        r == spec_transport(name.spec_bytes()),
{
    let b = name.as_bytes();
    let tcp: [u8; 3] = [84, 67, 80];
    let lu62: [u8; 4] = [76, 85, 54, 50];
    let netbios: [u8; 7] = [78, 69, 84, 66, 73, 79, 83];
    let spx: [u8; 3] = [83, 80, 88];
    assert(tcp@ =~= seq![84u8, 67u8, 80u8]);
    assert(lu62@ =~= seq![76u8, 85u8, 54u8, 50u8]);
    assert(netbios@ =~= seq![78u8, 69u8, 84u8, 66u8, 73u8, 79u8, 83u8]);
    assert(spx@ =~= seq![83u8, 80u8, 88u8]);
    if bytes_eq(b, tcp.as_slice()) {
        Some(MQXPT_TCP)
    } else if bytes_eq(b, lu62.as_slice()) {
        Some(MQXPT_LU62)
    } else if bytes_eq(b, netbios.as_slice()) {
        Some(MQXPT_NETBIOS)
    } else if bytes_eq(b, spx.as_slice()) {
        Some(MQXPT_SPX)
    } else {
        None
    }
}

/// A client connection to a server: its channel name, connection name and transport type.
#[derive(Debug, Clone, Copy)]
pub struct MqServer<'m> {
    pub channel_name: &'m str,
    pub connection_name: &'m str,
    pub transport: i32,
}

/// What a server definition made of the groups `c`, `t` and `n` gives: the channel name is
/// checked to fit in 20 bytes, then the connection name in 264 bytes, then the transport.
pub open spec fn spec_server_outcome<'m>(
    r: Result<MqServer<'m>, MqServerSyntaxError>,
    c: Seq<char>,
    t: Seq<char>,
    n: Seq<char>,
) -> bool {
    if encode_utf8(c).len() > 20 {
        r matches Err(MqServerSyntaxError::ChannelFormat(s)) && s@ == c
    } else if encode_utf8(n).len() > 264 {
        r matches Err(MqServerSyntaxError::ConnectionNameFormat(s)) && s@ == n
    } else {
        match spec_transport(encode_utf8(t)) {
            None => r matches Err(MqServerSyntaxError::UnrecognizedTransport(s)) && s@ == t,
            Some(x) => r matches Ok(m) && m.channel_name@ == c && m.connection_name@ == n
                && m.transport == x,
        }
    }
}

impl<'m> MqServer<'m> {
    /// A server definition from its channel, transport and connection parts.
    pub fn from_parts(channel: &'m str, transport: &'m str, connection_name: &'m str) -> (r: Result<
        Self,
        MqServerSyntaxError,
    >)
        ensures
            spec_server_outcome(r, channel@, transport@, connection_name@),
    {
        if channel.as_bytes().len() > 20 {
            return Err(MqServerSyntaxError::ChannelFormat(channel.to_owned()));
        }
        if connection_name.as_bytes().len() > 264 {
            return Err(MqServerSyntaxError::ConnectionNameFormat(connection_name.to_owned()));
        }
        match transport_code(transport) {
            Some(x) => Ok(MqServer { channel_name: channel, connection_name, transport: x }),
            None => Err(MqServerSyntaxError::UnrecognizedTransport(transport.to_owned())),
        }
    }

    /// Parse a server definition `channel/transport/connection`, the form of the `MQSERVER`
    /// environment variable.
    pub fn try_from(server: &'m str) -> (r: Result<Self, MqServerSyntaxError>)
        ensures
            match spec_lazy_fields(server.spec_bytes()) {
                None => r matches Err(MqServerSyntaxError::InvalidFormat),
                Some((c, t, n)) => spec_server_outcome(r, c, t, n),
            },
    {
        match mqserver_split_lazy(server) {
            Some((channel, transport, connection_name)) => Self::from_parts(
                channel,
                transport,
                connection_name,
            ),
            None => Err(MqServerSyntaxError::InvalidFormat),
        }
    }
}

/// The channel and connection names are written to the channel definition, with the
/// transport type, and the binding becomes a client binding.
impl<'m> ConnectOption<'m> for MqServer<'m> {
    open spec fn spec_queue_manager_name(&self) -> Option<QueueManagerName> {
        None
    }

    open spec fn spec_applicable(&self) -> bool {
        self.channel_name.spec_bytes().len() <= 20 && self.connection_name.spec_bytes().len() <= 264
    }

    fn applicable(&self) -> (b: bool) {
        self.channel_name.as_bytes().len() <= 20 && self.connection_name.as_bytes().len() <= 264
    }

    open spec fn spec_flags(&self) -> ConnectStructFlags {
        CONNECT_HAS_CD
    }

    open spec fn spec_apply(&self, before: ConnectStructs<'m>, after: ConnectStructs<'m>) -> bool {
        &&& after.cd.struc.channel_name@ == space_padded(self.channel_name.spec_bytes(), 20)
        &&& after.cd.struc.connection_name@ == space_padded(self.connection_name.spec_bytes(), 264)
        &&& after == ConnectStructs {
            cd: MqStruct {
                struc: Mqcd {
                    channel_name: after.cd.struc.channel_name,
                    connection_name: after.cd.struc.connection_name,
                    transport_type: self.transport,
                    ..before.cd.struc
                },
            },
            cno: MqStruct {
                struc: Mqcno { options: spec_with_client(before.cno.struc.options), ..before.cno.struc },
            },
            ..before
        }
    }

    fn queue_manager_name(&self) -> (r: Option<QueueManagerName>) {
        None
    }

    fn apply_param(&self, structs: &mut ConnectStructs<'m>) -> (flags: ConnectStructFlags) {
        let assigned_channel = structs.cd.struc.channel_name.assign(self.channel_name.as_bytes());
        let assigned_connection = structs.cd.struc.connection_name.assign(
            self.connection_name.as_bytes(),
        );
        structs.cd.struc.transport_type = self.transport;
        structs.cno.struc.options = (structs.cno.struc.options & !MQCNO_LOCAL_BINDING)
            | MQCNO_CLIENT_BINDING;
        CONNECT_HAS_CD
    }
}

/// What a server definition made of the groups `c`, `t` and `n` gives as names: the channel
/// name must fit in 20 bytes and hold a value, then the connection name in 264 bytes, then
/// the transport must be known.
pub open spec fn spec_mqserver_outcome(
    r: Result<(ChannelName, ConnectionName, i32), MqServerSyntaxError>,
    c: Seq<char>,
    t: Seq<char>,
    n: Seq<char>,
) -> bool {
    let cb = encode_utf8(c);
    let nb = encode_utf8(n);
    if !(cb.len() <= 20 && !all_pad(space_padded(cb, 20))) {
        r matches Err(MqServerSyntaxError::ChannelFormat(s)) && s@ == c
    } else if !(nb.len() <= 264 && !all_pad(space_padded(nb, 264))) {
        r matches Err(MqServerSyntaxError::ConnectionNameFormat(s)) && s@ == n
    } else {
        match spec_transport(encode_utf8(t)) {
            None => r matches Err(MqServerSyntaxError::UnrecognizedTransport(s)) && s@ == t,
            Some(x) => r matches Ok((ch, cn, xpt)) && ch.0@ == space_padded(cb, 20) && cn.0@
                == space_padded(nb, 264) && xpt == x,
        }
    }
}

/// The channel name, connection name and transport type of a server definition's parts.
pub fn mqserver_from_parts(channel: &str, transport: &str, connection_name: &str) -> (r: Result<
    (ChannelName, ConnectionName, i32),
    MqServerSyntaxError,
>)
    ensures
        spec_mqserver_outcome(r, channel@, transport@, connection_name@),
{
    let channel_name = match MqStr::<20>::from_str(channel) {
        Ok(v) => {
            if v.has_value() {
                ChannelName(v)
            } else {
                return Err(MqServerSyntaxError::ChannelFormat(channel.to_owned()));
            }
        },
        Err(_) => {
            return Err(MqServerSyntaxError::ChannelFormat(channel.to_owned()));
        },
    };
    let conn = match MqStr::<264>::from_str(connection_name) {
        Ok(v) => {
            if v.has_value() {
                ConnectionName(v)
            } else {
                return Err(MqServerSyntaxError::ConnectionNameFormat(connection_name.to_owned()));
            }
        },
        Err(_) => {
            return Err(MqServerSyntaxError::ConnectionNameFormat(connection_name.to_owned()));
        },
    };
    match transport_code(transport) {
        Some(x) => Ok((channel_name, conn, x)),
        None => Err(MqServerSyntaxError::UnrecognizedTransport(transport.to_owned())),
    }
}

/// Parse a server definition `channel/transport/connection` into its channel name,
/// connection name and transport type.
pub fn mqserver(server: &str) -> (r: Result<(ChannelName, ConnectionName, i32), MqServerSyntaxError>)
    ensures
        match spec_greedy_fields(server.spec_bytes()) {
            None => r matches Err(MqServerSyntaxError::InvalidFormat),
            Some((c, t, n)) => spec_mqserver_outcome(r, c, t, n),
        },
{
    match mqserver_split(server) {
        Some((channel, transport, connection_name)) => mqserver_from_parts(
            channel,
            transport,
            connection_name,
        ),
        None => Err(MqServerSyntaxError::InvalidFormat),
    }
}

} // verus!
