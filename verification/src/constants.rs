use vstd::prelude::*;

verus! {

/// Integer encoding bits of `MQENC_*`: the reversed (little endian) integer encoding.
pub const MQENC_INTEGER_REVERSED: i32 = 0x02;
/// Integer encoding bits of `MQENC_*`: the normal (big endian) integer encoding.
pub const MQENC_INTEGER_NORMAL: i32 = 0x01;
/// Mask of the integer encoding bits of `MQENC_*`.
pub const MQENC_INTEGER_MASK: i32 = 0x0F;
/// The native encoding of the little endian platforms this library supports.
pub const MQENC_NATIVE: i32 = 0x222;

/// The UTF-8 character set identifier.
pub const CCSID_UTF8: i32 = 1208;

/// The CCSID of the application (`MQCCSI_APPL`).
pub const MQCCSI_APPL: i32 = -3;
/// The CCSID inherited from the previous header (`MQCCSI_INHERIT`).
pub const MQCCSI_INHERIT: i32 = -2;

/// Object descriptor versions (`MQOD_VERSION_*`).
pub const MQOD_VERSION_1: i32 = 1;
pub const MQOD_VERSION_3: i32 = 3;
pub const MQOD_VERSION_4: i32 = 4;

/// Object types (`MQOT_*`).
pub const MQOT_NONE: i32 = 0;
pub const MQOT_Q: i32 = 1;
pub const MQOT_Q_MGR: i32 = 5;

/// Channel definition versions (`MQCD_VERSION_*`).
pub const MQCD_VERSION_6: i32 = 6;
pub const MQCD_VERSION_7: i32 = 7;
pub const MQCD_VERSION_12: i32 = 12;

/// Channel type of a client connection (`MQCHT_CLNTCONN`).
pub const MQCHT_CLNTCONN: i32 = 6;

/// Transport types (`MQXPT_*`).
pub const MQXPT_LU62: i32 = 1;
pub const MQXPT_TCP: i32 = 2;
pub const MQXPT_NETBIOS: i32 = 3;
pub const MQXPT_SPX: i32 = 4;

/// Security parameters versions (`MQCSP_VERSION_*`).
pub const MQCSP_VERSION_1: i32 = 1;
pub const MQCSP_VERSION_2: i32 = 2;
pub const MQCSP_VERSION_3: i32 = 3;

/// Authentication types (`MQCSP_AUTH_*`).
pub const MQCSP_AUTH_NONE: i32 = 0;
pub const MQCSP_AUTH_USER_ID_AND_PWD: i32 = 1;
pub const MQCSP_AUTH_ID_TOKEN: i32 = 2;

/// TLS configuration versions (`MQSCO_VERSION_*`).
pub const MQSCO_VERSION_1: i32 = 1;
pub const MQSCO_VERSION_2: i32 = 2;
pub const MQSCO_VERSION_3: i32 = 3;
pub const MQSCO_VERSION_4: i32 = 4;
pub const MQSCO_VERSION_5: i32 = 5;
pub const MQSCO_VERSION_6: i32 = 6;

/// FIPS requirement (`MQSSL_FIPS_*`).
pub const MQSSL_FIPS_NO: i32 = 0;
pub const MQSSL_FIPS_YES: i32 = 1;

/// Suite B policy values (`MQ_SUITE_B_*`).
pub const MQ_SUITE_B_NOT_AVAILABLE: i32 = 0;
pub const MQ_SUITE_B_NONE: i32 = 1;
pub const MQ_SUITE_B_128_BIT: i32 = 2;
pub const MQ_SUITE_B_192_BIT: i32 = 4;

/// Connection options versions (`MQCNO_VERSION_*`).
pub const MQCNO_VERSION_1: i32 = 1;
pub const MQCNO_VERSION_2: i32 = 2;
pub const MQCNO_VERSION_3: i32 = 3;
pub const MQCNO_VERSION_4: i32 = 4;
pub const MQCNO_VERSION_5: i32 = 5;
pub const MQCNO_VERSION_6: i32 = 6;
pub const MQCNO_VERSION_7: i32 = 7;
pub const MQCNO_VERSION_8: i32 = 8;

/// Connection options (`MQCNO_*`).
pub const MQCNO_NONE: i32 = 0;
pub const MQCNO_STANDARD_BINDING: i32 = 0;
pub const MQCNO_FASTPATH_BINDING: i32 = 0x1;
pub const MQCNO_SHARED_BINDING: i32 = 0x100;
pub const MQCNO_ISOLATED_BINDING: i32 = 0x200;
pub const MQCNO_LOCAL_BINDING: i32 = 0x400;
pub const MQCNO_CLIENT_BINDING: i32 = 0x800;
pub const MQCNO_GENERATE_CONN_TAG: i32 = 0x200000;
pub const MQCNO_RECONNECT: i32 = 0x1000000;

/// Balancing options version (`MQBNO_VERSION_1`).
pub const MQBNO_VERSION_1: i32 = 1;

/// Attribute selector ranges (`MQIA_*`, `MQCA_*`).
pub const MQIA_FIRST: i32 = 1;
pub const MQIA_LAST: i32 = 2000;
pub const MQCA_FIRST: i32 = 2001;
pub const MQCA_LAST: i32 = 4000;

/// Handle sharing options of a connection (`MQCNO_HANDLE_SHARE_*`).
pub const MQCNO_HANDLE_SHARE_NONE: i32 = 32;
pub const MQCNO_HANDLE_SHARE_BLOCK: i32 = 64;
pub const MQCNO_HANDLE_SHARE_NO_BLOCK: i32 = 128;

/// The length of a connection tag (`MQ_CONN_TAG_LENGTH`).
pub const MQ_CONN_TAG_LENGTH: usize = 128;

/// Completion codes (`MQCC_*`).
pub const MQCC_OK: i32 = 0;
pub const MQCC_WARNING: i32 = 1;
pub const MQCC_FAILED: i32 = 2;

/// Reason codes (`MQRC_*`).
pub const MQRC_NONE: i32 = 0;
pub const MQRC_NO_MSG_AVAILABLE: i32 = 2033;
pub const MQRC_TRUNCATED_MSG_ACCEPTED: i32 = 2079;
pub const MQRC_TRUNCATED_MSG_FAILED: i32 = 2080;
pub const MQRC_PROPERTY_NAME_TOO_BIG: i32 = 2465;
pub const MQRC_PROPERTY_VALUE_TOO_BIG: i32 = 2469;

/// The returned length is not known (`MQRL_UNDEFINED`).
pub const MQRL_UNDEFINED: i32 = -1;

/// Get message options version 3 (`MQGMO_VERSION_3`).
pub const MQGMO_VERSION_3: i32 = 3;

/// Object type of a topic (`MQOT_TOPIC`).
pub const MQOT_TOPIC: i32 = 8;

/// Open with the queue definition's binding (`MQOO_BIND_AS_Q_DEF`).
pub const MQOO_BIND_AS_Q_DEF: i32 = 0;

/// Alternate user authority options (`MQOO_ALTERNATE_USER_AUTHORITY`,
/// `MQPMO_ALTERNATE_USER_AUTHORITY`).
pub const MQOO_ALTERNATE_USER_AUTHORITY: i32 = 4096;
pub const MQPMO_ALTERNATE_USER_AUTHORITY: i32 = 4096;

/// Get message options (`MQGMO_*`).
pub const MQGMO_VERSION_1: i32 = 1;
pub const MQGMO_VERSION_2: i32 = 2;
pub const MQGMO_VERSION_4: i32 = 4;
pub const MQGMO_NO_WAIT: i32 = 0;
pub const MQGMO_WAIT: i32 = 1;
pub const MQGMO_CONVERT: i32 = 16384;
pub const MQGMO_PROPERTIES_IN_HANDLE: i32 = 134217728;

/// Match options (`MQMO_*`).
pub const MQMO_NONE: i32 = 0;
pub const MQMO_MATCH_MSG_ID: i32 = 1;
pub const MQMO_MATCH_CORREL_ID: i32 = 2;
pub const MQMO_MATCH_GROUP_ID: i32 = 4;
pub const MQMO_MATCH_MSG_SEQ_NUMBER: i32 = 8;
pub const MQMO_MATCH_OFFSET: i32 = 16;
pub const MQMO_MATCH_MSG_TOKEN: i32 = 32;

/// The message data was not converted (`MQRC_NOT_CONVERTED`).
pub const MQRC_NOT_CONVERTED: i32 = 2119;

/// Message descriptor version 2 (`MQMD_VERSION_2`).
pub const MQMD_VERSION_2: i32 = 2;

/// Property data types (`MQTYPE_*`).
pub const MQTYPE_AS_SET: i32 = 0;
pub const MQTYPE_NULL: i32 = 2;
pub const MQTYPE_BOOLEAN: i32 = 4;
pub const MQTYPE_BYTE_STRING: i32 = 8;
pub const MQTYPE_INT8: i32 = 16;
pub const MQTYPE_INT16: i32 = 32;
pub const MQTYPE_INT32: i32 = 64;
pub const MQTYPE_INT64: i32 = 128;
pub const MQTYPE_FLOAT32: i32 = 256;
pub const MQTYPE_FLOAT64: i32 = 512;
pub const MQTYPE_STRING: i32 = 1024;

/// Inquire message property options (`MQIMPO_*`).
pub const MQIMPO_VERSION_1: i32 = 1;
pub const MQIMPO_NONE: i32 = 0;
pub const MQIMPO_CONVERT_TYPE: i32 = 2;
pub const MQIMPO_INQ_NEXT: i32 = 8;
pub const MQIMPO_CONVERT_VALUE: i32 = 32;

/// Property descriptor values (`MQPD_*`, `MQCOPY_DEFAULT`).
pub const MQPD_VERSION_1: i32 = 1;
pub const MQPD_SUPPORT_OPTIONAL: i32 = 1;
pub const MQPD_NO_CONTEXT: i32 = 0;
pub const MQCOPY_DEFAULT: i32 = 22;

/// Status structure versions and status types (`MQSTS_*`, `MQSTAT_TYPE_*`).
pub const MQSTS_VERSION_1: i32 = 1;
pub const MQSTS_VERSION_2: i32 = 2;
pub const MQSTAT_TYPE_ASYNC_ERROR: i32 = 0;
pub const MQSTAT_TYPE_RECONNECTION: i32 = 1;
pub const MQSTAT_TYPE_RECONNECTION_ERROR: i32 = 2;

/// Subscription descriptor and request values (`MQSD_*`, `MQSO_*`, `MQSRO_*`, `MQSR_*`),
/// and the absent object handle (`MQHO_NONE`).
pub const MQSD_VERSION_1: i32 = 1;
pub const MQSO_NONE: i32 = 0;
pub const MQSO_MANAGED: i32 = 32;
pub const MQSRO_VERSION_1: i32 = 1;
pub const MQSRO_NONE: i32 = 0;
pub const MQSR_ACTION_PUBLICATION: i32 = 1;
pub const MQHO_NONE: i32 = 0;

/// Put message options version 3 (`MQPMO_VERSION_3`).
pub const MQPMO_VERSION_3: i32 = 3;

/// What a put does with message properties (`MQACTP_*`).
pub const MQACTP_NEW: i32 = 0;
pub const MQACTP_FORWARD: i32 = 1;
pub const MQACTP_REPLY: i32 = 2;
pub const MQACTP_REPORT: i32 = 3;

/// Callback values (`MQCBCT_*`, `MQCBDO_*`, `MQCBT_*`, `MQOP_REGISTER`).
pub const MQCBCT_DEREGISTER_CALL: i32 = 4;
pub const MQCBDO_DEREGISTER_CALL: i32 = 512;
pub const MQCBT_EVENT_HANDLER: i32 = 2;
pub const MQOP_REGISTER: i32 = 256;

/// Set message property options (`MQSMPO_*`).
pub const MQSMPO_VERSION_1: i32 = 1;
pub const MQSMPO_SET_FIRST: i32 = 0;

/// Property reason codes (`MQRC_*`).
pub const MQRC_PROP_VALUE_NOT_CONVERTED: i32 = 2466;
pub const MQRC_PROPERTY_NOT_AVAILABLE: i32 = 2471;
pub const MQRC_PROP_NAME_NOT_CONVERTED: i32 = 2492;

} // verus!
