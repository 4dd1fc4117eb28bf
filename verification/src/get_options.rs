use vstd::prelude::*;
use vstd::utf8::{encode_utf8, valid_utf8};

use crate::constants::{
    CCSID_UTF8, MQCC_FAILED, MQCC_WARNING, MQENC_INTEGER_REVERSED, MQENC_NATIVE, MQGMO_CONVERT,
    MQGMO_NO_WAIT, MQGMO_VERSION_1, MQGMO_VERSION_2, MQGMO_VERSION_3, MQGMO_WAIT,
    MQMD_VERSION_2, MQMO_MATCH_CORREL_ID, MQMO_MATCH_GROUP_ID, MQMO_MATCH_MSG_ID,
    MQMO_MATCH_MSG_SEQ_NUMBER, MQMO_MATCH_MSG_TOKEN, MQMO_MATCH_OFFSET, MQMO_NONE,
    MQRC_NOT_CONVERTED, MQRC_NO_MSG_AVAILABLE, MQRL_UNDEFINED,
};
use crate::get::GetState;
use crate::mqstr::MqStr;
use crate::headers::TextEnc;
use crate::strings::StringCcsid;
use crate::structs::{max_version, spec_raised, MqStruct};
use crate::types::{mqfmt_none, CorrelationId, Fmt, GroupId, Identifier, MessageFormat, MessageId, MsgToken};
use crate::values::{MqMask, MQGMO};

verus! {

/// The fields of the message descriptor (`MQMD2`) that getting or putting a message sets or
/// reads.
#[derive(Debug, Clone, Copy)]
pub struct Mqmd2 {
    pub version: i32,
    pub report: i32,
    pub msg_type: i32,
    pub expiry: i32,
    pub feedback: i32,
    pub priority: i32,
    pub persistence: i32,
    pub reply_to_q: MqStr<48>,
    pub reply_to_q_mgr: MqStr<48>,
    pub user_identifier: MqStr<12>,
    pub accounting_token: [u8; 32],
    pub appl_identity_data: MqStr<32>,
    pub put_appl_type: i32,
    pub put_appl_name: MqStr<28>,
    pub put_date: MqStr<8>,
    pub put_time: MqStr<8>,
    pub appl_origin_data: MqStr<4>,
    pub msg_flags: i32,
    pub msg_id: Identifier,
    pub correl_id: Identifier,
    pub group_id: Identifier,
    pub msg_seq_number: i32,
    pub offset: i32,
    pub encoding: i32,
    pub coded_char_set_id: i32,
    pub format: Fmt,
}

impl Mqmd2 {
    /// The default message descriptor with the given CCSID, encoding and format name.
    pub open spec fn is_default_with_format(&self, ccsid: i32, encoding: i32, format: Seq<u8>) -> bool {
        &&& self.version == MQMD_VERSION_2
        &&& self.report == 0
        &&& self.msg_type == 8
        &&& self.expiry == -1
        &&& self.feedback == 0
        &&& self.priority == -1
        &&& self.persistence == 2
        &&& self.reply_to_q@ == Seq::new(48, |i: int| 0u8)
        &&& self.reply_to_q_mgr@ == Seq::new(48, |i: int| 0u8)
        &&& self.user_identifier@ == Seq::new(12, |i: int| 0u8)
        &&& self.accounting_token@ == Seq::new(32, |i: int| 0u8)
        &&& self.appl_identity_data@ == Seq::new(32, |i: int| 0u8)
        &&& self.put_appl_type == 0
        &&& self.put_appl_name@ == Seq::new(28, |i: int| 0u8)
        &&& self.put_date@ == Seq::new(8, |i: int| 0u8)
        &&& self.put_time@ == Seq::new(8, |i: int| 0u8)
        &&& self.appl_origin_data@ == Seq::new(4, |i: int| 0u8)
        &&& self.msg_flags == 0
        &&& self.msg_id@ == Seq::new(24, |i: int| 0u8)
        &&& self.correl_id@ == Seq::new(24, |i: int| 0u8)
        &&& self.group_id@ == Seq::new(24, |i: int| 0u8)
        &&& self.msg_seq_number == 1
        &&& self.offset == 0
        &&& self.encoding == encoding
        &&& self.coded_char_set_id == ccsid
        &&& self.format@ == format
    }

    /// The default message descriptor: version 2, no report options, a datagram that does
    /// not expire, no feedback, the priority and persistence of the queue, names and context
    /// fields of nul bytes, no identifiers, the native encoding, the queue manager's CCSID,
    /// no format, the first message of a group at offset 0.
    pub fn default_value() -> (r: Self)
        ensures
            r.version == MQMD_VERSION_2,
            r.report == 0,
            r.msg_type == 8,
            r.expiry == -1,
            r.feedback == 0,
            r.priority == -1,
            r.persistence == 2,
            r.reply_to_q@ == Seq::new(48, |i: int| 0u8),
            r.reply_to_q_mgr@ == Seq::new(48, |i: int| 0u8),
            r.user_identifier@ == Seq::new(12, |i: int| 0u8),
            r.accounting_token@ == Seq::new(32, |i: int| 0u8),
            r.appl_identity_data@ == Seq::new(32, |i: int| 0u8),
            r.put_appl_type == 0,
            r.put_appl_name@ == Seq::new(28, |i: int| 0u8),
            r.put_date@ == Seq::new(8, |i: int| 0u8),
            r.put_time@ == Seq::new(8, |i: int| 0u8),
            r.appl_origin_data@ == Seq::new(4, |i: int| 0u8),
            r.msg_flags == 0,
            r.msg_id@ == Seq::new(24, |i: int| 0u8),
            r.correl_id@ == Seq::new(24, |i: int| 0u8),
            r.group_id@ == Seq::new(24, |i: int| 0u8),
            r.msg_seq_number == 1,
            r.offset == 0,
            r.encoding == MQENC_NATIVE,
            r.coded_char_set_id == 0,
            r.format@ == Seq::new(8, |i: int| 0x20u8),
            r.is_default_with_format(0, MQENC_NATIVE, Seq::new(8, |i: int| 0x20u8)),
    {
        let r = Mqmd2 {
            version: MQMD_VERSION_2,
            report: 0,
            msg_type: 8,
            expiry: -1,
            feedback: 0,
            priority: -1,
            persistence: 2,
            reply_to_q: MqStr { data: [0u8; 48] },
            reply_to_q_mgr: MqStr { data: [0u8; 48] },
            user_identifier: MqStr { data: [0u8; 12] },
            accounting_token: [0u8; 32],
            appl_identity_data: MqStr { data: [0u8; 32] },
            put_appl_type: 0,
            put_appl_name: MqStr { data: [0u8; 28] },
            put_date: MqStr { data: [0u8; 8] },
            put_time: MqStr { data: [0u8; 8] },
            appl_origin_data: MqStr { data: [0u8; 4] },
            msg_flags: 0,
            msg_id: [0u8; 24],
            correl_id: [0u8; 24],
            group_id: [0u8; 24],
            msg_seq_number: 1,
            offset: 0,
            encoding: MQENC_NATIVE,
            coded_char_set_id: 0,
            format: mqfmt_none(),
        };
        assert(r.msg_id@ =~= Seq::new(24, |i: int| 0u8));
        assert(r.reply_to_q@ =~= Seq::new(48, |i: int| 0u8));
        assert(r.reply_to_q_mgr@ =~= Seq::new(48, |i: int| 0u8));
        assert(r.user_identifier@ =~= Seq::new(12, |i: int| 0u8));
        assert(r.accounting_token@ =~= Seq::new(32, |i: int| 0u8));
        assert(r.appl_identity_data@ =~= Seq::new(32, |i: int| 0u8));
        assert(r.put_appl_name@ =~= Seq::new(28, |i: int| 0u8));
        assert(r.put_date@ =~= Seq::new(8, |i: int| 0u8));
        assert(r.put_time@ =~= Seq::new(8, |i: int| 0u8));
        assert(r.appl_origin_data@ =~= Seq::new(4, |i: int| 0u8));
        assert(r.correl_id@ =~= Seq::new(24, |i: int| 0u8));
        assert(r.group_id@ =~= Seq::new(24, |i: int| 0u8));
        r
    }
}

/// The fields of the get message options (`MQGMO`) that getting a message sets or reads.
#[derive(Debug, Clone, Copy)]
pub struct Mqgmo {
    pub version: i32,
    pub options: i32,
    pub wait_interval: i32,
    pub match_options: i32,
    pub msg_token: [u8; 16],
    pub returned_length: i32,
}

impl Mqgmo {
    /// The default get message options: version 1, no wait, matching on message and
    /// correlation identifiers, no token, no returned length.
    pub fn default_value() -> (r: Self)
        ensures
            r.version == MQGMO_VERSION_1,
            r.options == MQGMO_NO_WAIT,
            r.wait_interval == 0,
            r.match_options == MQMO_MATCH_MSG_ID | MQMO_MATCH_CORREL_ID,
            r.msg_token@ == Seq::new(16, |i: int| 0u8),
            r.returned_length == MQRL_UNDEFINED,
    {
        let r = Mqgmo {
            version: MQGMO_VERSION_1,
            options: MQGMO_NO_WAIT,
            wait_interval: 0,
            match_options: MQMO_MATCH_MSG_ID | MQMO_MATCH_CORREL_ID,
            msg_token: [0u8; 16],
            returned_length: MQRL_UNDEFINED,
        };
        assert(r.msg_token@ =~= Seq::new(16, |i: int| 0u8));
        r
    }
}

impl MqStruct<Mqgmo> {
    /// Raise the version to at least `version`.
    pub fn set_min_version(&mut self, version: i32)
        ensures
            final(self).struc == (Mqgmo { version: spec_raised(old(self).struc.version, version), ..old(self).struc }),
    {
        self.struc.version = max_version(self.struc.version, version);
    }
}

/// The parameters of a get call: the message descriptor and the get message options.
#[derive(Debug, Clone, Copy)]
pub struct GetParam {
    pub md: MqStruct<Mqmd2>,
    pub gmo: MqStruct<Mqgmo>,
}

impl GetParam {
    /// The parameters a get starts from: the default descriptor, and the default options at
    /// version 3 so that the returned length is reported.
    pub open spec fn is_initial(&self) -> bool {
        &&& self.md.struc.is_default_with_format(0, MQENC_NATIVE, Seq::new(8, |i: int| 0x20u8))
        &&& self.gmo.struc.version == MQGMO_VERSION_3
        &&& self.gmo.struc.options == MQGMO_NO_WAIT
        &&& self.gmo.struc.wait_interval == 0
        &&& self.gmo.struc.match_options == MQMO_MATCH_MSG_ID | MQMO_MATCH_CORREL_ID
        &&& self.gmo.struc.msg_token@ == Seq::new(16, |i: int| 0u8)
        &&& self.gmo.struc.returned_length == MQRL_UNDEFINED
    }

    /// The parameters a get starts from: the default descriptor and options, the options at
    /// version 3 so that the returned length is reported.
    pub fn new() -> (r: Self)
        ensures
            r.is_initial(),
            r.gmo.struc.version == MQGMO_VERSION_3,
            r.gmo.struc.returned_length == MQRL_UNDEFINED,
            r.gmo.struc.options == MQGMO_NO_WAIT,
            r.md.struc.version == MQMD_VERSION_2,
    {
        let mut gmo = Mqgmo::default_value();
        gmo.version = MQGMO_VERSION_3;
        GetParam { md: MqStruct::new(Mqmd2::default_value()), gmo: MqStruct::new(gmo) }
    }
}

/// The parameters with only the get message options changed.
pub open spec fn spec_with_gmo(p: GetParam, gmo: Mqgmo) -> GetParam {
    GetParam { gmo: MqStruct { struc: gmo }, ..p }
}

/// A value that fills in the parameters of a get call.
pub trait GetOption {
    /// How applying the option changes the parameters.
    spec fn spec_apply(&self, before: GetParam, after: GetParam) -> bool;

    /// Fill in the parameters.
    fn apply_param(&self, param: &mut GetParam)
        ensures
            self.spec_apply(*old(param), *final(param)),
    ;
}

/// An absent option changes nothing.
impl<O: GetOption> GetOption for Option<O> {
    open spec fn spec_apply(&self, before: GetParam, after: GetParam) -> bool {
        match self {
            Some(o) => o.spec_apply(before, after),
            None => after == before,
        }
    }

    fn apply_param(&self, param: &mut GetParam) {
        match self {
            Some(o) => o.apply_param(param),
            None => {},
        }
    }
}

/// Nothing to apply.
impl GetOption for () {
    open spec fn spec_apply(&self, before: GetParam, after: GetParam) -> bool {
        after == before
    }

    fn apply_param(&self, param: &mut GetParam) {
    }
}

/// Two options: the first is applied, then the second.
impl<A: GetOption, B: GetOption> GetOption for (A, B) {
    open spec fn spec_apply(&self, before: GetParam, after: GetParam) -> bool {
        exists|mid: GetParam|
            #![trigger self.0.spec_apply(before, mid)]
            self.0.spec_apply(before, mid) && self.1.spec_apply(mid, after)
    }

    fn apply_param(&self, param: &mut GetParam) {
        let ghost before = *param;
        self.0.apply_param(param);
        let ghost mid = *param;
        self.1.apply_param(param);
        assert(self.0.spec_apply(before, mid));
    }
}

/// Three options: they are applied in order.
impl<A: GetOption, B: GetOption, C: GetOption> GetOption for (A, B, C) {
    open spec fn spec_apply(&self, before: GetParam, after: GetParam) -> bool {
        exists|m1: GetParam, m2: GetParam|
            #![trigger self.0.spec_apply(before, m1), self.1.spec_apply(m1, m2)]
            self.0.spec_apply(before, m1) && self.1.spec_apply(m1, m2) && self.2.spec_apply(m2, after)
    }

    fn apply_param(&self, param: &mut GetParam) {
        let ghost before = *param;
        self.0.apply_param(param);
        let ghost m1 = *param;
        self.1.apply_param(param);
        let ghost m2 = *param;
        self.2.apply_param(param);
        assert(self.0.spec_apply(before, m1) && self.1.spec_apply(m1, m2));
    }
}

/// The get message options are added.
impl GetOption for MqMask<MQGMO> {
    open spec fn spec_apply(&self, before: GetParam, after: GetParam) -> bool {
        after == spec_with_gmo(before, Mqgmo { options: before.gmo.struc.options | self.value, ..before.gmo.struc })
    }

    fn apply_param(&self, param: &mut GetParam) {
        param.gmo.struc.options = param.gmo.struc.options | self.value;
    }
}

/// Whether a get waits for a message, and how long.
#[derive(Debug, Clone, Copy, PartialEq, Eq, Structural)]
pub enum GetWait {
    /// Return at once when no message is available.
    NoWait,
    /// Wait up to this many milliseconds.
    Wait(i32),
}

impl Default for GetWait {
    fn default() -> (r: Self)
        ensures
            r == GetWait::NoWait,
    {
        GetWait::NoWait
    }
}

/// The wait option is added; a wait also sets the wait interval.
impl GetOption for GetWait {
    open spec fn spec_apply(&self, before: GetParam, after: GetParam) -> bool {
        let g = before.gmo.struc;
        after == spec_with_gmo(
            before,
            match self {
                GetWait::NoWait => Mqgmo { options: g.options | MQGMO_NO_WAIT, ..g },
                GetWait::Wait(interval) => Mqgmo { options: g.options | MQGMO_WAIT, wait_interval: *interval, ..g },
            },
        )
    }

    fn apply_param(&self, param: &mut GetParam) {
        match self {
            GetWait::NoWait => {
                param.gmo.struc.options = param.gmo.struc.options | MQGMO_NO_WAIT;
            },
            GetWait::Wait(interval) => {
                param.gmo.struc.options = param.gmo.struc.options | MQGMO_WAIT;
                param.gmo.struc.wait_interval = *interval;
            },
        }
    }
}

/// Whether the message data is converted, and to what.
#[derive(Debug, Clone, Copy, PartialEq, Eq, Structural)]
pub enum GetConvert {
    /// No conversion.
    NoConvert,
    /// Conversion to the CCSID and encoding of the descriptor.
    Convert,
    /// Conversion to this CCSID and encoding.
    ConvertTo(i32, i32),
}

/// The convert option is added; a target also sets the CCSID and encoding of the
/// descriptor.
impl GetOption for GetConvert {
    open spec fn spec_apply(&self, before: GetParam, after: GetParam) -> bool {
        let g = before.gmo.struc;
        match self {
            GetConvert::NoConvert => after == before,
            GetConvert::Convert => after == spec_with_gmo(before, Mqgmo { options: g.options | MQGMO_CONVERT, ..g }),
            GetConvert::ConvertTo(ccsid, encoding) => after == GetParam {
                gmo: MqStruct { struc: Mqgmo { options: g.options | MQGMO_CONVERT, ..g } },
                md: MqStruct {
                    struc: Mqmd2 { coded_char_set_id: *ccsid, encoding: *encoding, ..before.md.struc },
                },
            },
        }
    }

    fn apply_param(&self, param: &mut GetParam) {
        match self {
            GetConvert::NoConvert => {},
            GetConvert::Convert => {
                param.gmo.struc.options = param.gmo.struc.options | MQGMO_CONVERT;
            },
            GetConvert::ConvertTo(ccsid, encoding) => {
                param.gmo.struc.options = param.gmo.struc.options | MQGMO_CONVERT;
                param.md.struc.coded_char_set_id = *ccsid;
                param.md.struc.encoding = *encoding;
            },
        }
    }
}

/// Which message to get: the identifiers, sequence number, offset and token to match.
#[derive(Debug, Clone, Copy)]
pub struct MatchOptions<'a> {
    pub msg_id: Option<&'a MessageId>,
    pub correl_id: Option<&'a CorrelationId>,
    pub group_id: Option<&'a GroupId>,
    pub seq_number: Option<i32>,
    pub offset: Option<i32>,
    pub token: Option<&'a MsgToken>,
}

impl<'a> MatchOptions<'a> {
    /// Match any message.
    pub fn any_message() -> (r: Self)
        ensures
            r.msg_id is None && r.correl_id is None && r.group_id is None,
            r.seq_number is None && r.offset is None && r.token is None,
    {
        MatchOptions { msg_id: None, correl_id: None, group_id: None, seq_number: None, offset: None, token: None }
    }

    /// The match options (`MQMO_*`): one for each field given.
    pub open spec fn spec_match_options(&self) -> i32 {
        (if self.correl_id is Some { MQMO_MATCH_CORREL_ID } else { MQMO_NONE })
            | (if self.msg_id is Some { MQMO_MATCH_MSG_ID } else { MQMO_NONE })
            | (if self.group_id is Some { MQMO_MATCH_GROUP_ID } else { MQMO_NONE })
            | (if self.seq_number is Some { MQMO_MATCH_MSG_SEQ_NUMBER } else { MQMO_NONE })
            | (if self.offset is Some { MQMO_MATCH_OFFSET } else { MQMO_NONE })
            | (if self.token is Some { MQMO_MATCH_MSG_TOKEN } else { MQMO_NONE })
    }
}

/// The option bit `bit` when `present`, else none.
fn match_bit(present: bool, bit: i32) -> (r: i32)
    ensures
        r == (if present { bit } else { MQMO_NONE }),
{
    if present {
        bit
    } else {
        MQMO_NONE
    }
}

/// The fields to match are set in the descriptor and the options: the identifiers given, the
/// sequence number and offset (0 when not given), the token (raising the options to version
/// 3); the options are raised to version 2 and match exactly the fields given.
impl<'a> GetOption for MatchOptions<'a> {
    open spec fn spec_apply(&self, before: GetParam, after: GetParam) -> bool {
        let md = before.md.struc;
        let g = before.gmo.struc;
        let g_version = match self.token {
            Some(_) => spec_raised(spec_raised(g.version, MQGMO_VERSION_3), MQGMO_VERSION_2),
            None => spec_raised(g.version, MQGMO_VERSION_2),
        };
        after == GetParam {
            md: MqStruct {
                struc: Mqmd2 {
                    msg_id: match self.msg_id {
                        Some(m) => m.0,
                        None => md.msg_id,
                    },
                    correl_id: match self.correl_id {
                        Some(c) => c.0,
                        None => md.correl_id,
                    },
                    group_id: match self.group_id {
                        Some(gid) => gid.0,
                        None => md.group_id,
                    },
                    msg_seq_number: match self.seq_number {
                        Some(n) => n,
                        None => 0,
                    },
                    offset: match self.offset {
                        Some(o) => o,
                        None => 0,
                    },
                    ..md
                },
            },
            gmo: MqStruct {
                struc: Mqgmo {
                    version: g_version,
                    msg_token: match self.token {
                        Some(t) => t.0,
                        None => g.msg_token,
                    },
                    match_options: self.spec_match_options(),
                    ..g
                },
            },
        }
    }

    fn apply_param(&self, param: &mut GetParam) {
        match self.msg_id {
            Some(msg_id) => {
                param.md.struc.msg_id = msg_id.0;
            },
            None => {},
        }
        match self.correl_id {
            Some(correl_id) => {
                param.md.struc.correl_id = correl_id.0;
            },
            None => {},
        }
        match self.group_id {
            Some(group_id) => {
                param.md.struc.group_id = group_id.0;
            },
            None => {},
        }
        param.md.struc.msg_seq_number = match self.seq_number {
            Some(n) => n,
            None => 0,
        };
        param.md.struc.offset = match self.offset {
            Some(o) => o,
            None => 0,
        };
        match self.token {
            Some(token) => {
                param.gmo.set_min_version(MQGMO_VERSION_3);
                param.gmo.struc.msg_token = token.0;
            },
            None => {},
        }
        param.gmo.set_min_version(MQGMO_VERSION_2);
        param.gmo.struc.match_options = match_bit(self.correl_id.is_some(), MQMO_MATCH_CORREL_ID)
            | match_bit(self.msg_id.is_some(), MQMO_MATCH_MSG_ID)
            | match_bit(self.group_id.is_some(), MQMO_MATCH_GROUP_ID)
            | match_bit(self.seq_number.is_some(), MQMO_MATCH_MSG_SEQ_NUMBER)
            | match_bit(self.offset.is_some(), MQMO_MATCH_OFFSET)
            | match_bit(self.token.is_some(), MQMO_MATCH_MSG_TOKEN);
    }
}

/// The correlation identifier is set in the descriptor and matched.
impl GetOption for CorrelationId {
    open spec fn spec_apply(&self, before: GetParam, after: GetParam) -> bool {
        after == GetParam {
            md: MqStruct { struc: Mqmd2 { correl_id: self.0, ..before.md.struc } },
            gmo: MqStruct {
                struc: Mqgmo { match_options: before.gmo.struc.match_options | MQMO_MATCH_CORREL_ID, ..before.gmo.struc },
            },
        }
    }

    fn apply_param(&self, param: &mut GetParam) {
        param.md.struc.correl_id = self.0;
        param.gmo.struc.match_options = param.gmo.struc.match_options | MQMO_MATCH_CORREL_ID;
    }
}

/// The message identifier is set in the descriptor and matched.
impl GetOption for MessageId {
    open spec fn spec_apply(&self, before: GetParam, after: GetParam) -> bool {
        after == GetParam {
            md: MqStruct { struc: Mqmd2 { msg_id: self.0, ..before.md.struc } },
            gmo: MqStruct {
                struc: Mqgmo { match_options: before.gmo.struc.match_options | MQMO_MATCH_MSG_ID, ..before.gmo.struc },
            },
        }
    }

    fn apply_param(&self, param: &mut GetParam) {
        param.md.struc.msg_id = self.0;
        param.gmo.struc.match_options = param.gmo.struc.match_options | MQMO_MATCH_MSG_ID;
    }
}

/// The group identifier is set in the descriptor and matched.
impl GetOption for GroupId {
    open spec fn spec_apply(&self, before: GetParam, after: GetParam) -> bool {
        after == GetParam {
            md: MqStruct { struc: Mqmd2 { group_id: self.0, ..before.md.struc } },
            gmo: MqStruct {
                struc: Mqgmo { match_options: before.gmo.struc.match_options | MQMO_MATCH_GROUP_ID, ..before.gmo.struc },
            },
        }
    }

    fn apply_param(&self, param: &mut GetParam) {
        param.md.struc.group_id = self.0;
        param.gmo.struc.match_options = param.gmo.struc.match_options | MQMO_MATCH_GROUP_ID;
    }
}

/// The message token is set in the options and matched.
impl GetOption for MsgToken {
    open spec fn spec_apply(&self, before: GetParam, after: GetParam) -> bool {
        after == spec_with_gmo(
            before,
            Mqgmo {
                msg_token: self.0,
                match_options: before.gmo.struc.match_options | MQMO_MATCH_MSG_TOKEN,
                ..before.gmo.struc
            },
        )
    }

    fn apply_param(&self, param: &mut GetParam) {
        param.gmo.struc.msg_token = self.0;
        param.gmo.struc.match_options = param.gmo.struc.match_options | MQMO_MATCH_MSG_TOKEN;
    }
}

/// The lengths a get reports: the message length, and the length of the data in the buffer,
/// which is the returned length when MQ reports one, else the smaller of the buffer size and
/// the message length.
pub open spec fn spec_data_length(length: i32, returned_length: i32, write_len: usize) -> int {
    if returned_length == MQRL_UNDEFINED {
        if (write_len as int) < (length as int) {
            write_len as int
        } else {
            length as int
        }
    } else {
        returned_length as int
    }
}

/// The message length and the data length of a completed get.
pub fn get_lengths(length: i32, returned_length: i32, write_len: usize) -> (r: (usize, usize))
    requires
        write_len <= i32::MAX,
        length >= 0,
        spec_data_length(length, returned_length, write_len) >= 0,
    ensures
        r.0 == length,
        r.1 == spec_data_length(length, returned_length, write_len),
{
    let data_length: i32 = if returned_length == MQRL_UNDEFINED {
        let w = write_len as i32;
        if w < length {
            w
        } else {
            length
        }
    } else {
        returned_length
    };
    (length as usize, data_length as usize)
}

/// The parameters of a get: the initial parameters with the options applied.
pub fn get_param<O: GetOption>(options: &O) -> (r: GetParam)
    ensures
        (exists|init: GetParam| #![trigger options.spec_apply(init, r)] init.is_initial() && options.spec_apply(init, r)),
{
    let mut param = GetParam::new();
    let ghost init = param;
    options.apply_param(&mut param);
    param
}

/// The state of a completed get: the buffer, the lengths, and the format the message
/// descriptor reports (its format name in ASCII).
pub fn get_state<B>(buffer: B, data_length: usize, message_length: usize, md: &Mqmd2) -> (r: GetState<B>)
    ensures
        r.buffer == buffer,
        r.data_length == data_length,
        r.message_length == message_length,
        r.format == (MessageFormat { ccsid: md.coded_char_set_id, encoding: md.encoding, fmt: TextEnc::Ascii(md.format) }),
{
    GetState {
        buffer,
        data_length,
        message_length,
        format: MessageFormat { ccsid: md.coded_char_set_id, encoding: md.encoding, fmt: TextEnc::Ascii(md.format) },
    }
}

/// A get failed only because no message was available, which is an empty result.
pub fn is_no_msg_available(cc: i32, rc: i32) -> (b: bool)
    ensures
        b == (cc == MQCC_FAILED && rc == MQRC_NO_MSG_AVAILABLE),
{
    cc == MQCC_FAILED && rc == MQRC_NO_MSG_AVAILABLE
}

/// The format name `MQFMT_STRING` in ASCII.
pub open spec fn spec_mqfmt_string() -> Seq<u8> {
    seq![0x4Du8, 0x51u8, 0x53u8, 0x54u8, 0x52u8, 0x20u8, 0x20u8, 0x20u8]
}

/// The message format is `MQFMT_STRING` in ASCII.
pub open spec fn spec_is_string_format(fmt: TextEnc<Fmt>) -> bool {
    fmt matches TextEnc::Ascii(f) && f@ == spec_mqfmt_string()
}

/// The format is `MQFMT_STRING` in ASCII.
fn is_string_format(fmt: TextEnc<Fmt>) -> (b: bool)
    ensures
        b == spec_is_string_format(fmt),
{
    match fmt {
        TextEnc::Ascii(f) => {
            let s = crate::types::mqfmt_string();
            let eq = crate::mqstr::bytes_eq(f.as_slice(), s.as_slice());
            eq
        },
        TextEnc::Ebcdic(_) => false,
    }
}

/// Why message data could not be read as text with its CCSID.
#[derive(Debug, Clone, Copy)]
pub enum GetStringCcsidError {
    /// The message is not of format `MQFMT_STRING`.
    UnexpectedFormat(TextEnc<Fmt>),
}

/// Why message data could not be read as a Rust string.
#[derive(Debug)]
pub enum GetStringError {
    /// The message is not UTF-8 text.
    Utf8Parse(std::str::Utf8Error),
    /// The message is not of format `MQFMT_STRING`, or its CCSID is not UTF-8.
    UnexpectedFormat(TextEnc<Fmt>, i32),
    /// MQ could not convert the message: the completion and reason codes.
    Mq(i32, i32),
}

/// The text of a retrieved message with its CCSID: the data in the buffer, with the byte order
/// of the message encoding; refused unless the message is of format `MQFMT_STRING`.
pub fn string_ccsid_from_state(state: GetState<Vec<u8>>) -> (r: Result<StringCcsid<Vec<u8>>, GetStringCcsidError>)
    requires
        state.data_length <= state.buffer@.len(),
    ensures
        !spec_is_string_format(state.format.fmt) ==> (r matches Err(
            GetStringCcsidError::UnexpectedFormat(f),
        ) && f == state.format.fmt),
        spec_is_string_format(state.format.fmt) ==> (r matches Ok(s) && s.data@ == state.buffer@.take(
            state.data_length as int,
        ) && s.ccsid == (if state.format.ccsid == 0 {
            None
        } else {
            Some(state.format.ccsid)
        }) && s.le == ((state.format.encoding & MQENC_INTEGER_REVERSED) != 0)),
{
    if !is_string_format(state.format.fmt) {
        return Err(GetStringCcsidError::UnexpectedFormat(state.format.fmt));
    }
    let mut data = state.buffer;
    data.truncate(state.data_length);
    let ccsid = if state.format.ccsid == 0 {
        None
    } else {
        Some(state.format.ccsid)
    };
    Ok(StringCcsid { ccsid, data, le: (state.format.encoding & MQENC_INTEGER_REVERSED) != 0 })
}

/// The text of a retrieved message as a Rust string: refused unless the message is of format
/// `MQFMT_STRING` in UTF-8; a warning that MQ could not convert the message is an error; the
/// data must be valid UTF-8.
pub fn string_from_state(state: &GetState<Vec<u8>>, warning: Option<i32>) -> (r: Result<String, GetStringError>)
    requires
        state.data_length <= state.buffer@.len(),
    ensures
        !(spec_is_string_format(state.format.fmt) && state.format.ccsid == CCSID_UTF8) ==> (r matches Err(
            GetStringError::UnexpectedFormat(f, c),
        ) && f == state.format.fmt && c == state.format.ccsid),
        spec_is_string_format(state.format.fmt) && state.format.ccsid == CCSID_UTF8 && warning == Some(
            MQRC_NOT_CONVERTED,
        ) ==> (r matches Err(GetStringError::Mq(cc, rc)) && cc == MQCC_WARNING && rc == MQRC_NOT_CONVERTED),
        spec_is_string_format(state.format.fmt) && state.format.ccsid == CCSID_UTF8 && warning != Some(
            MQRC_NOT_CONVERTED,
        ) ==> (if valid_utf8(state.buffer@.take(state.data_length as int)) {
            r matches Ok(s) && encode_utf8(s@) == state.buffer@.take(state.data_length as int)
        } else {
            r matches Err(GetStringError::Utf8Parse(_))
        }),
{
    if !is_string_format(state.format.fmt) || state.format.ccsid != CCSID_UTF8 {
        return Err(GetStringError::UnexpectedFormat(state.format.fmt, state.format.ccsid));
    }
    match warning {
        Some(rc) => {
            if rc == MQRC_NOT_CONVERTED {
                return Err(GetStringError::Mq(MQCC_WARNING, rc));
            }
        },
        None => {},
    }
    let data = vstd::slice::slice_subrange(state.buffer.as_slice(), 0, state.data_length);
    match crate::strings::str_from_utf8(data) {
        Ok(s) => Ok(s.to_owned()),
        Err(e) => Err(GetStringError::Utf8Parse(e)),
    }
}

} // verus!
