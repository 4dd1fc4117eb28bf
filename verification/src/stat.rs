use vstd::prelude::*;

use crate::constants::{
    MQSTAT_TYPE_ASYNC_ERROR, MQSTAT_TYPE_RECONNECTION, MQSTAT_TYPE_RECONNECTION_ERROR,
    MQSTS_VERSION_1, MQSTS_VERSION_2,
};
use crate::strings::StrCcsidOwned;
use crate::types::ObjectName;

verus! {

/// The buffer size given to the variable length strings of a status inquiry.
pub const DEFAULT_OBJECTSTRING_LENGTH: i32 = 4096;

/// The fields of the status structure (`MQSTS`) a status inquiry fills: completion and
/// reason, put counts, the object, and the returned lengths and CCSIDs of the object string
/// and subscription name.
#[derive(Debug, Clone, Copy)]
pub struct Mqsts {
    pub comp_code: i32,
    pub reason: i32,
    pub put_success_count: i32,
    pub put_warning_count: i32,
    pub put_failure_count: i32,
    pub object_type: i32,
    pub object_name: ObjectName,
    pub object_qmgr_name: ObjectName,
    pub resolved_object_name: ObjectName,
    pub resolved_qmgr_name: ObjectName,
    pub object_string_length: i32,
    pub object_string_ccsid: i32,
    pub sub_name_length: i32,
    pub sub_name_ccsid: i32,
    pub open_options: i32,
    pub sub_options: i32,
}

/// What a status inquiry asks for: the status type, the structure version and the buffer
/// sizes of the object string and subscription name (0 where none is given).
#[derive(Debug, Clone, Copy, PartialEq, Eq, Structural)]
pub struct StatRequest {
    pub stat_type: i32,
    pub version: i32,
    pub object_string_buf_size: i32,
    pub sub_name_buf_size: i32,
}

/// The inquiry of the asynchronous put status: version 2, with an object string buffer.
pub fn stat_put_request() -> (r: StatRequest)
    ensures
        r == (StatRequest {
            stat_type: MQSTAT_TYPE_ASYNC_ERROR,
            version: MQSTS_VERSION_2,
            object_string_buf_size: DEFAULT_OBJECTSTRING_LENGTH,
            sub_name_buf_size: 0,
        }),
{
    StatRequest {
        stat_type: MQSTAT_TYPE_ASYNC_ERROR,
        version: MQSTS_VERSION_2,
        object_string_buf_size: DEFAULT_OBJECTSTRING_LENGTH,
        sub_name_buf_size: 0,
    }
}

/// The inquiry of the reconnection status: the default version, no buffers.
pub fn stat_reconnection_request() -> (r: StatRequest)
    ensures
        r == (StatRequest {
            stat_type: MQSTAT_TYPE_RECONNECTION,
            version: MQSTS_VERSION_1,
            object_string_buf_size: 0,
            sub_name_buf_size: 0,
        }),
{
    StatRequest { stat_type: MQSTAT_TYPE_RECONNECTION, version: MQSTS_VERSION_1, object_string_buf_size: 0, sub_name_buf_size: 0 }
}

/// The inquiry of the reconnection error status: version 2, with object string and
/// subscription name buffers.
pub fn stat_reconnection_error_request() -> (r: StatRequest)
    ensures
        r == (StatRequest {
            stat_type: MQSTAT_TYPE_RECONNECTION_ERROR,
            version: MQSTS_VERSION_2,
            object_string_buf_size: DEFAULT_OBJECTSTRING_LENGTH,
            sub_name_buf_size: DEFAULT_OBJECTSTRING_LENGTH,
        }),
{
    StatRequest {
        stat_type: MQSTAT_TYPE_RECONNECTION_ERROR,
        version: MQSTS_VERSION_2,
        object_string_buf_size: DEFAULT_OBJECTSTRING_LENGTH,
        sub_name_buf_size: DEFAULT_OBJECTSTRING_LENGTH,
    }
}

/// A completion code as a warning: none where it is `MQCC_OK` (zero).
pub open spec fn spec_warning(comp_code: i32) -> Option<i32> {
    if comp_code == 0 {
        None
    } else {
        Some(comp_code)
    }
}

/// The CCSID of returned text: none where it is zero.
pub open spec fn spec_ccsid_of(ccsid: i32) -> Option<i32> {
    if ccsid == 0 {
        None
    } else {
        Some(ccsid)
    }
}

/// The variable length string returned in the first `length` bytes of a buffer: none where
/// it is empty.
pub open spec fn spec_returned_string(buffer: Seq<u8>, length: i32, ccsid: i32, s: Option<StrCcsidOwned>) -> bool {
    if length == 0 {
        s is None
    } else {
        s matches Some(t) && t.data@ == buffer.take(length as int) && t.ccsid == spec_ccsid_of(ccsid)
    }
}

/// The variable length string returned in the first `length` bytes of a buffer.
fn returned_string(buffer: Vec<u8>, length: i32, ccsid: i32) -> (r: Option<StrCcsidOwned>)
    requires
        0 <= length <= buffer@.len(),
    ensures
        spec_returned_string(buffer@, length, ccsid, r),
{
    if length == 0 {
        None
    } else {
        let mut b = buffer;
        b.truncate(length as usize);
        let c = if ccsid == 0 {
            None
        } else {
            Some(ccsid)
        };
        Some(StrCcsidOwned::from_vec(b, c))
    }
}

/// The asynchronous put status.
#[derive(Debug, Clone)]
pub struct AsyncPutStat {
    pub warning: Option<i32>,
    pub reason: i32,
    pub put_success_count: i32,
    pub put_warning_count: i32,
    pub put_failure_count: i32,
    pub object_type: i32,
    pub object_name: ObjectName,
    pub object_qmgr_name: ObjectName,
    pub resolved_object_name: ObjectName,
    pub resolved_object_qmgr_name: ObjectName,
    pub object_string: Option<StrCcsidOwned>,
}

impl AsyncPutStat {
    /// The status from the returned structure and the object string buffer it filled.
    pub fn new(sts: &Mqsts, buffer: Vec<u8>) -> (r: Self)
        requires
            0 <= sts.object_string_length <= buffer@.len(),
        ensures
            r.warning == spec_warning(sts.comp_code),
            r.reason == sts.reason,
            r.put_success_count == sts.put_success_count,
            r.put_warning_count == sts.put_warning_count,
            r.put_failure_count == sts.put_failure_count,
            r.object_type == sts.object_type,
            r.object_name == sts.object_name,
            r.object_qmgr_name == sts.object_qmgr_name,
            r.resolved_object_name == sts.resolved_object_name,
            r.resolved_object_qmgr_name == sts.resolved_qmgr_name,
            spec_returned_string(buffer@, sts.object_string_length, sts.object_string_ccsid, r.object_string),
    {
        AsyncPutStat {
            warning: if sts.comp_code == 0 {
                None
            } else {
                Some(sts.comp_code)
            },
            reason: sts.reason,
            put_success_count: sts.put_success_count,
            put_warning_count: sts.put_warning_count,
            put_failure_count: sts.put_failure_count,
            object_type: sts.object_type,
            object_name: sts.object_name,
            object_qmgr_name: sts.object_qmgr_name,
            resolved_object_name: sts.resolved_object_name,
            resolved_object_qmgr_name: sts.resolved_qmgr_name,
            object_string: returned_string(buffer, sts.object_string_length, sts.object_string_ccsid),
        }
    }
}

/// The reconnection status.
#[derive(Debug, Clone, Copy)]
pub struct ReconnectionStat {
    pub warning: Option<i32>,
    pub reason: i32,
    pub object_type: i32,
    pub object_name: ObjectName,
    pub object_qmgr_name: ObjectName,
}

impl ReconnectionStat {
    /// The status from the returned structure.
    pub fn new(sts: &Mqsts) -> (r: Self)
        ensures
            r.warning == spec_warning(sts.comp_code),
            r.reason == sts.reason,
            r.object_type == sts.object_type,
            r.object_name == sts.object_name,
            r.object_qmgr_name == sts.object_qmgr_name,
    {
        ReconnectionStat {
            warning: if sts.comp_code == 0 {
                None
            } else {
                Some(sts.comp_code)
            },
            reason: sts.reason,
            object_type: sts.object_type,
            object_name: sts.object_name,
            object_qmgr_name: sts.object_qmgr_name,
        }
    }
}

/// The reconnection error status.
#[derive(Debug, Clone)]
pub struct ReconnectionErrorStat {
    pub warning: Option<i32>,
    pub reason: i32,
    pub object_type: i32,
    pub object_name: ObjectName,
    pub object_qmgr_name: ObjectName,
    pub object_string: Option<StrCcsidOwned>,
    pub sub_name: Option<StrCcsidOwned>,
    pub open_options: i32,
    pub sub_options: i32,
}

impl ReconnectionErrorStat {
    /// The status from the returned structure and the object string and subscription name
    /// buffers it filled.
    pub fn new(sts: &Mqsts, object_string_buffer: Vec<u8>, sub_name_buffer: Vec<u8>) -> (r: Self)
        requires
            0 <= sts.object_string_length <= object_string_buffer@.len(),
            0 <= sts.sub_name_length <= sub_name_buffer@.len(),
        ensures
            r.warning == spec_warning(sts.comp_code),
            r.reason == sts.reason,
            r.object_type == sts.object_type,
            r.object_name == sts.object_name,
            r.object_qmgr_name == sts.object_qmgr_name,
            spec_returned_string(
                object_string_buffer@,
                sts.object_string_length,
                sts.object_string_ccsid,
                r.object_string,
            ),
            spec_returned_string(sub_name_buffer@, sts.sub_name_length, sts.sub_name_ccsid, r.sub_name),
            r.open_options == sts.open_options,
            r.sub_options == sts.sub_options,
    {
        ReconnectionErrorStat {
            warning: if sts.comp_code == 0 {
                None
            } else {
                Some(sts.comp_code)
            },
            reason: sts.reason,
            object_type: sts.object_type,
            object_name: sts.object_name,
            object_qmgr_name: sts.object_qmgr_name,
            object_string: returned_string(object_string_buffer, sts.object_string_length, sts.object_string_ccsid),
            sub_name: returned_string(sub_name_buffer, sts.sub_name_length, sts.sub_name_ccsid),
            open_options: sts.open_options,
            sub_options: sts.sub_options,
        }
    }
}

} // verus!
