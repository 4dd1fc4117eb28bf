use vstd::prelude::*;
use vstd::string::StringSliceAdditionalSpecFns;

use crate::constants::{CCSID_UTF8, MQACTP_FORWARD, MQACTP_NEW, MQACTP_REPLY, MQACTP_REPORT, MQENC_NATIVE, MQPMO_VERSION_3};
use crate::get_options::Mqmd2;
use crate::headers::{spec_ascii_of, TextEnc};
use crate::mqstr::{all_pad, MqStr};
use crate::structs::{max_version, spec_raised, MqStruct};
use crate::types::{
    mqfmt_none, mqfmt_string, AccountingToken, ApplIdentityData, ApplName, ApplOriginData, CorrelationId, GroupId, MessageFormat,
    MessageId, PutDate, PutTime, ReplyToQueueManagerName, ReplyToQueueName, UserIdentifier,
};
use crate::values::{MqMask, MQPMO};

verus! {

/// A message to put: its bytes and its format.
pub trait PutMessage {
    /// The bytes of the message.
    spec fn spec_render(&self) -> Seq<u8>;

    /// The format of the message.
    spec fn spec_format(&self) -> MessageFormat;

    /// The bytes of the message.
    fn render(&self) -> (r: &[u8])
        ensures
            r@ == self.spec_render(),
    ;

    /// The format of the message.
    fn format(&self) -> (r: MessageFormat)
        ensures
            r == self.spec_format(),
    ;
}

/// Text is put as UTF-8 of format `MQFMT_STRING` in the native encoding.
impl PutMessage for str {
    open spec fn spec_render(&self) -> Seq<u8> {
        self.spec_bytes()
    }

    open spec fn spec_format(&self) -> MessageFormat {
        MessageFormat {
            ccsid: CCSID_UTF8,
            encoding: MQENC_NATIVE,
            fmt: TextEnc::Ascii([0x4Du8, 0x51u8, 0x53u8, 0x54u8, 0x52u8, 0x20u8, 0x20u8, 0x20u8]),
        }
    }

    fn render(&self) -> (r: &[u8]) {
        self.as_bytes()
    }

    fn format(&self) -> (r: MessageFormat) {
        let f = mqfmt_string();
        let m = MessageFormat { ccsid: CCSID_UTF8, encoding: MQENC_NATIVE, fmt: TextEnc::Ascii(f) };
        assert(f == [0x4Du8, 0x51u8, 0x53u8, 0x54u8, 0x52u8, 0x20u8, 0x20u8, 0x20u8]);
        m
    }
}

/// Bytes are put as they are: UTF-8 in the native encoding, without a format name.
impl PutMessage for [u8] {
    open spec fn spec_render(&self) -> Seq<u8> {
        self@
    }

    open spec fn spec_format(&self) -> MessageFormat {
        MessageFormat {
            ccsid: CCSID_UTF8,
            encoding: MQENC_NATIVE,
            fmt: TextEnc::Ascii([0x20u8, 0x20u8, 0x20u8, 0x20u8, 0x20u8, 0x20u8, 0x20u8, 0x20u8]),
        }
    }

    fn render(&self) -> (r: &[u8]) {
        self
    }

    fn format(&self) -> (r: MessageFormat) {
        let f = mqfmt_none();
        assert(f@ =~= [0x20u8, 0x20u8, 0x20u8, 0x20u8, 0x20u8, 0x20u8, 0x20u8, 0x20u8]@);
        assert(f == [0x20u8, 0x20u8, 0x20u8, 0x20u8, 0x20u8, 0x20u8, 0x20u8, 0x20u8]);
        MessageFormat { ccsid: CCSID_UTF8, encoding: MQENC_NATIVE, fmt: TextEnc::Ascii(f) }
    }
}

/// Bytes are put as they are, with the format given.
impl PutMessage for (Vec<u8>, MessageFormat) {
    open spec fn spec_render(&self) -> Seq<u8> {
        self.0@
    }

    open spec fn spec_format(&self) -> MessageFormat {
        self.1
    }

    fn render(&self) -> (r: &[u8]) {
        self.0.as_slice()
    }

    fn format(&self) -> (r: MessageFormat) {
        self.1
    }
}

/// The fields of the put message options (`MQPMO`) that putting sets.
#[derive(Debug, Clone, Copy)]
pub struct Mqpmo {
    pub version: i32,
    pub options: i32,
    pub context: i32,
    pub action: i32,
    pub original_msg_handle: i64,
    pub new_msg_handle: i64,
}

impl Mqpmo {
    /// The default put message options: version 1, no options, no context or handles.
    pub open spec fn spec_default() -> Self {
        Mqpmo { version: 1, options: 0, context: 0, action: 0, original_msg_handle: 0, new_msg_handle: 0 }
    }

    /// The default put message options: version 1, no options, no context or handles.
    pub fn default_value() -> (r: Self)
        ensures
            r == Self::spec_default(),
    {
        Mqpmo { version: 1, options: 0, context: 0, action: 0, original_msg_handle: 0, new_msg_handle: 0 }
    }
}

impl MqStruct<Mqpmo> {
    /// Raise the version to at least `version`.
    pub fn set_min_version(&mut self, version: i32)
        ensures
            final(self).struc == (Mqpmo { version: spec_raised(old(self).struc.version, version), ..old(self).struc }),
    {
        self.struc.version = max_version(self.struc.version, version);
    }
}

/// The parameters of a put call: the message descriptor and the put message options.
#[derive(Debug, Clone, Copy)]
pub struct PutParam {
    pub md: MqStruct<Mqmd2>,
    pub pmo: MqStruct<Mqpmo>,
}

/// The parameters with only the message descriptor changed.
pub open spec fn spec_with_md(p: PutParam, md: Mqmd2) -> PutParam {
    PutParam { md: MqStruct { struc: md }, ..p }
}

/// A value that fills in the parameters of a put call.
pub trait PutOption {
    /// How applying the option changes the parameters.
    spec fn spec_apply(&self, before: PutParam, after: PutParam) -> bool;

    /// Fill in the parameters.
    fn apply_param(&self, param: &mut PutParam)
        ensures
            self.spec_apply(*old(param), *final(param)),
    ;
}

/// Nothing to apply.
impl PutOption for () {
    open spec fn spec_apply(&self, before: PutParam, after: PutParam) -> bool {
        after == before
    }

    fn apply_param(&self, param: &mut PutParam) {
    }
}

/// An absent option changes nothing.
impl<O: PutOption> PutOption for Option<O> {
    open spec fn spec_apply(&self, before: PutParam, after: PutParam) -> bool {
        match self {
            Some(o) => o.spec_apply(before, after),
            None => after == before,
        }
    }

    fn apply_param(&self, param: &mut PutParam) {
        match self {
            Some(o) => o.apply_param(param),
            None => {},
        }
    }
}

/// Two options: the second is applied first, then the first.
impl<A: PutOption, B: PutOption> PutOption for (A, B) {
    open spec fn spec_apply(&self, before: PutParam, after: PutParam) -> bool {
        exists|mid: PutParam|
            #![trigger self.1.spec_apply(before, mid)]
            self.1.spec_apply(before, mid) && self.0.spec_apply(mid, after)
    }

    fn apply_param(&self, param: &mut PutParam) {
        let ghost before = *param;
        self.1.apply_param(param);
        let ghost mid = *param;
        self.0.apply_param(param);
        assert(self.1.spec_apply(before, mid));
    }
}

/// Three options: they are applied from the last to the first.
impl<A: PutOption, B: PutOption, C: PutOption> PutOption for (A, B, C) {
    open spec fn spec_apply(&self, before: PutParam, after: PutParam) -> bool {
        exists|m1: PutParam, m2: PutParam|
            #![trigger self.2.spec_apply(before, m1), self.1.spec_apply(m1, m2)]
            self.2.spec_apply(before, m1) && self.1.spec_apply(m1, m2) && self.0.spec_apply(m2, after)
    }

    fn apply_param(&self, param: &mut PutParam) {
        let ghost before = *param;
        self.2.apply_param(param);
        let ghost m1 = *param;
        self.1.apply_param(param);
        let ghost m2 = *param;
        self.0.apply_param(param);
        assert(self.2.spec_apply(before, m1) && self.1.spec_apply(m1, m2));
    }
}

/// The put message options are added.
impl PutOption for MqMask<MQPMO> {
    open spec fn spec_apply(&self, before: PutParam, after: PutParam) -> bool {
        after == PutParam {
            pmo: MqStruct { struc: Mqpmo { options: before.pmo.struc.options | self.value, ..before.pmo.struc } },
            ..before
        }
    }

    fn apply_param(&self, param: &mut PutParam) {
        param.pmo.struc.options = param.pmo.struc.options | self.value;
    }
}

/// The message descriptor replaces that of the put.
impl PutOption for MqStruct<Mqmd2> {
    open spec fn spec_apply(&self, before: PutParam, after: PutParam) -> bool {
        after == PutParam { md: *self, ..before }
    }

    fn apply_param(&self, param: &mut PutParam) {
        param.md = *self;
    }
}

/// The message context of an opened object, by its handle.
#[derive(Debug, Clone, Copy)]
pub struct Context<T>(pub T);

/// The put takes its context from the object handle.
impl PutOption for Context<i32> {
    open spec fn spec_apply(&self, before: PutParam, after: PutParam) -> bool {
        after == PutParam { pmo: MqStruct { struc: Mqpmo { context: self.0, ..before.pmo.struc } }, ..before }
    }

    fn apply_param(&self, param: &mut PutParam) {
        param.pmo.struc.context = self.0;
    }
}

/// The message properties of a new message, by their message handle.
#[derive(Debug, Clone, Copy)]
pub struct NewProperties(pub i64);

/// The put options become at least version 3 and the put sends the properties as those of a
/// new message.
impl PutOption for NewProperties {
    open spec fn spec_apply(&self, before: PutParam, after: PutParam) -> bool {
        after == PutParam {
            pmo: MqStruct {
                struc: Mqpmo {
                    version: spec_raised(before.pmo.struc.version, MQPMO_VERSION_3),
                    action: MQACTP_NEW,
                    original_msg_handle: self.0,
                    ..before.pmo.struc
                },
            },
            ..before
        }
    }

    fn apply_param(&self, param: &mut PutParam) {
        param.pmo.set_min_version(MQPMO_VERSION_3);
        param.pmo.struc.action = MQACTP_NEW;
        param.pmo.struc.original_msg_handle = self.0;
    }
}

/// A message that answers, forwards or reports on another: the message handle of the
/// original message's properties, then that of the properties the put fills in.
#[derive(Debug, Clone, Copy)]
pub enum PropertyAction {
    Reply(i64, i64),
    Forward(i64, i64),
    Report(i64, i64),
}

impl PropertyAction {
    /// The action (`MQACTP_*`), the original handle and the new handle.
    pub open spec fn spec_parts(self) -> (i32, i64, i64) {
        match self {
            PropertyAction::Reply(o, n) => (MQACTP_REPLY, o, n),
            PropertyAction::Forward(o, n) => (MQACTP_FORWARD, o, n),
            PropertyAction::Report(o, n) => (MQACTP_REPORT, o, n),
        }
    }
}

/// The put options become at least version 3, with the action and both message handles.
impl PutOption for PropertyAction {
    open spec fn spec_apply(&self, before: PutParam, after: PutParam) -> bool {
        let (action, original, new) = self.spec_parts();
        after == PutParam {
            pmo: MqStruct {
                struc: Mqpmo {
                    version: spec_raised(before.pmo.struc.version, MQPMO_VERSION_3),
                    action: action,
                    original_msg_handle: original,
                    new_msg_handle: new,
                    ..before.pmo.struc
                },
            },
            ..before
        }
    }

    fn apply_param(&self, param: &mut PutParam) {
        let (action, original, new) = match *self {
            PropertyAction::Reply(o, n) => (MQACTP_REPLY, o, n),
            PropertyAction::Forward(o, n) => (MQACTP_FORWARD, o, n),
            PropertyAction::Report(o, n) => (MQACTP_REPORT, o, n),
        };
        param.pmo.set_min_version(MQPMO_VERSION_3);
        param.pmo.struc.action = action;
        param.pmo.struc.original_msg_handle = original;
        param.pmo.struc.new_msg_handle = new;
    }
}

/// Report options (`MQRO_*`) to add to the message descriptor.
#[derive(Debug, Clone, Copy)]
pub struct ReportOptions(pub i32);

/// The report options are added.
impl PutOption for ReportOptions {
    open spec fn spec_apply(&self, before: PutParam, after: PutParam) -> bool {
        after == spec_with_md(before, Mqmd2 { report: before.md.struc.report | self.0, ..before.md.struc })
    }

    fn apply_param(&self, param: &mut PutParam) {
        param.md.struc.report = param.md.struc.report | self.0;
    }
}

/// The message identifier is set in the descriptor.
impl PutOption for MessageId {
    open spec fn spec_apply(&self, before: PutParam, after: PutParam) -> bool {
        after == spec_with_md(before, Mqmd2 { msg_id: self.0, ..before.md.struc })
    }

    fn apply_param(&self, param: &mut PutParam) {
        param.md.struc.msg_id = self.0;
    }
}

/// The correlation identifier is set in the descriptor.
impl PutOption for CorrelationId {
    open spec fn spec_apply(&self, before: PutParam, after: PutParam) -> bool {
        after == spec_with_md(before, Mqmd2 { correl_id: self.0, ..before.md.struc })
    }

    fn apply_param(&self, param: &mut PutParam) {
        param.md.struc.correl_id = self.0;
    }
}

/// The group identifier is set in the descriptor.
impl PutOption for GroupId {
    open spec fn spec_apply(&self, before: PutParam, after: PutParam) -> bool {
        after == spec_with_md(before, Mqmd2 { group_id: self.0, ..before.md.struc })
    }

    fn apply_param(&self, param: &mut PutParam) {
        param.md.struc.group_id = self.0;
    }
}

/// The accounting token is set in the descriptor.
impl PutOption for AccountingToken {
    open spec fn spec_apply(&self, before: PutParam, after: PutParam) -> bool {
        after == spec_with_md(before, Mqmd2 { accounting_token: self.0, ..before.md.struc })
    }

    fn apply_param(&self, param: &mut PutParam) {
        param.md.struc.accounting_token = self.0;
    }
}

/// The putting application name is set in the descriptor.
impl PutOption for ApplName {
    open spec fn spec_apply(&self, before: PutParam, after: PutParam) -> bool {
        after == spec_with_md(before, Mqmd2 { put_appl_name: self.0, ..before.md.struc })
    }

    fn apply_param(&self, param: &mut PutParam) {
        param.md.struc.put_appl_name = self.0;
    }
}

/// The reply-to queue is set in the descriptor.
impl PutOption for ReplyToQueueName {
    open spec fn spec_apply(&self, before: PutParam, after: PutParam) -> bool {
        after == spec_with_md(before, Mqmd2 { reply_to_q: self.0, ..before.md.struc })
    }

    fn apply_param(&self, param: &mut PutParam) {
        param.md.struc.reply_to_q = self.0;
    }
}

/// The reply-to queue manager is set in the descriptor.
impl PutOption for ReplyToQueueManagerName {
    open spec fn spec_apply(&self, before: PutParam, after: PutParam) -> bool {
        after == spec_with_md(before, Mqmd2 { reply_to_q_mgr: self.0, ..before.md.struc })
    }

    fn apply_param(&self, param: &mut PutParam) {
        param.md.struc.reply_to_q_mgr = self.0;
    }
}

/// The put date is set in the descriptor.
impl PutOption for PutDate {
    open spec fn spec_apply(&self, before: PutParam, after: PutParam) -> bool {
        after == spec_with_md(before, Mqmd2 { put_date: self.0, ..before.md.struc })
    }

    fn apply_param(&self, param: &mut PutParam) {
        param.md.struc.put_date = self.0;
    }
}

/// The put time is set in the descriptor.
impl PutOption for PutTime {
    open spec fn spec_apply(&self, before: PutParam, after: PutParam) -> bool {
        after == spec_with_md(before, Mqmd2 { put_time: self.0, ..before.md.struc })
    }

    fn apply_param(&self, param: &mut PutParam) {
        param.md.struc.put_time = self.0;
    }
}

/// The user identifier is set in the descriptor.
impl PutOption for UserIdentifier {
    open spec fn spec_apply(&self, before: PutParam, after: PutParam) -> bool {
        after == spec_with_md(before, Mqmd2 { user_identifier: self.0, ..before.md.struc })
    }

    fn apply_param(&self, param: &mut PutParam) {
        param.md.struc.user_identifier = self.0;
    }
}

/// The application identity data is set in the descriptor.
impl PutOption for ApplIdentityData {
    open spec fn spec_apply(&self, before: PutParam, after: PutParam) -> bool {
        after == spec_with_md(before, Mqmd2 { appl_identity_data: self.0, ..before.md.struc })
    }

    fn apply_param(&self, param: &mut PutParam) {
        param.md.struc.appl_identity_data = self.0;
    }
}

/// The application origin data is set in the descriptor.
impl PutOption for ApplOriginData {
    open spec fn spec_apply(&self, before: PutParam, after: PutParam) -> bool {
        after == spec_with_md(before, Mqmd2 { appl_origin_data: self.0, ..before.md.struc })
    }

    fn apply_param(&self, param: &mut PutParam) {
        param.md.struc.appl_origin_data = self.0;
    }
}

/// An identifier that is not all nul bytes.
pub open spec fn spec_nonzero_id(id: [u8; 24]) -> Option<[u8; 24]> {
    if id@ == Seq::new(24, |i: int| 0u8) {
        None
    } else {
        Some(id)
    }
}

/// The identifier is all nul bytes.
fn id_is_zero(id: &[u8; 24]) -> (b: bool)
    ensures
        b == (id@ == Seq::new(24, |i: int| 0u8)),
{
    let mut i: usize = 0;
    while i < 24
        invariant
            i <= 24,
            id@.len() == 24,
            forall|j: int| 0 <= j < i ==> id@[j] == 0u8,
        decreases 24 - i,
    {
        if id[i] != 0 {
            assert(id@[i as int] != Seq::new(24, |k: int| 0u8)[i as int]);
            return false;
        }
        i = i + 1;
    }
    assert(id@ =~= Seq::new(24, |i: int| 0u8));
    true
}

/// The correlation identifier a put used, when it is not all nul bytes.
pub fn put_correlation_id(md: &Mqmd2) -> (r: Option<CorrelationId>)
    ensures
        r == (match spec_nonzero_id(md.correl_id) {
            Some(id) => Some(CorrelationId(id)),
            None => None,
        }),
{
    if id_is_zero(&md.correl_id) {
        None
    } else {
        Some(CorrelationId(md.correl_id))
    }
}

/// The group identifier a put used, when it is not all nul bytes.
pub fn put_group_id(md: &Mqmd2) -> (r: Option<GroupId>)
    ensures
        r == (match spec_nonzero_id(md.group_id) {
            Some(id) => Some(GroupId(id)),
            None => None,
        }),
{
    if id_is_zero(&md.group_id) {
        None
    } else {
        Some(GroupId(md.group_id))
    }
}

/// The application origin data a put used, when it holds a value.
pub fn put_appl_origin_data(md: &Mqmd2) -> (r: Option<ApplOriginData>)
    ensures
        r == (if all_pad(md.appl_origin_data@) {
            None
        } else {
            Some(ApplOriginData(md.appl_origin_data))
        }),
{
    if md.appl_origin_data.has_value() {
        Some(ApplOriginData(md.appl_origin_data))
    } else {
        None
    }
}

/// The parameters of a put: a message descriptor with the message's CCSID, encoding and
/// format name (in ASCII), put message options of version 3, then the options applied.
pub fn put_param<M: PutMessage + ?Sized, O: PutOption>(options: &O, message: &M) -> (r: PutParam)
    ensures
        (exists|init: PutParam|
            #![trigger options.spec_apply(init, r)]
            init.md.struc.is_default_with_format(
                message.spec_format().ccsid,
                message.spec_format().encoding,
                spec_ascii_of(message.spec_format().fmt),
            ) && init.pmo.struc == (Mqpmo {
                version: MQPMO_VERSION_3,
                ..Mqpmo::spec_default()
            }) && options.spec_apply(init, r)),
{
    let f = message.format();
    let md = f.into_mqmd2();
    let mut pmo = Mqpmo::default_value();
    pmo.version = MQPMO_VERSION_3;
    let mut param = PutParam { md: MqStruct::new(md), pmo: MqStruct::new(pmo) };
    let ghost init = param;
    options.apply_param(&mut param);
    param
}

} // verus!
