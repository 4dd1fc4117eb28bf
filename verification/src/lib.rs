//! Verified building blocks of an IBM MQ interface library: fixed width MQ
//! strings, character set tables, message header chains, connection and
//! object descriptor parameters, and message property handling.

pub mod constants;
pub mod mqstr;
pub mod mqserver;
pub mod encoding;
pub mod types;
pub mod headers;
pub mod strings;
pub mod connect_options;
pub mod buffer;
pub mod callback;
pub mod get;
pub mod get_options;
pub mod structs;
pub mod connect;
pub mod builder;
pub mod values;
pub mod attribute;
pub mod bag;
pub mod inq;
pub mod open;
pub mod properties;
pub mod put;
pub mod set_property;
pub mod stat;
pub mod subscribe;
