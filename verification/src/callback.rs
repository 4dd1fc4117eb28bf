use vstd::prelude::*;

use crate::constants::{MQCBCT_DEREGISTER_CALL, MQCBDO_DEREGISTER_CALL, MQCBT_EVENT_HANDLER, MQOP_REGISTER};

verus! {

/// How an event handler is registered with `MQCB`: the operation, the callback type and the
/// callback options.
#[derive(Debug, Clone, Copy, PartialEq, Eq, Structural)]
pub struct EventRegistration {
    pub operation: i32,
    pub callback_type: i32,
    pub options: i32,
}

/// The registration of an event handler with the callback options `options`: the handler is
/// always registered for the deregister call as well, so that its data can be released.
pub fn event_registration(options: i32) -> (r: EventRegistration)
    ensures
        r == (EventRegistration {
            operation: MQOP_REGISTER,
            callback_type: MQCBT_EVENT_HANDLER,
            options: options | MQCBDO_DEREGISTER_CALL,
        }),
{
    EventRegistration {
        operation: MQOP_REGISTER,
        callback_type: MQCBT_EVENT_HANDLER,
        options: options | MQCBDO_DEREGISTER_CALL,
    }
}

/// What to do on a call of an event handler: whether to call the application's handler, and
/// whether to release the handler's data.
#[derive(Debug, Clone, Copy, PartialEq, Eq, Structural)]
pub struct EventDispatch {
    pub invoke: bool,
    pub release: bool,
}

/// The dispatch of a call of type `call_type` (`MQCBCT_*`) to a handler the application
/// registered with the options `options`: the handler is called unless this is the deregister
/// call that the application did not ask for; the data is released on the deregister call.
pub fn event_dispatch(call_type: i32, options: i32) -> (r: EventDispatch)
    ensures
        r.release == (call_type == MQCBCT_DEREGISTER_CALL),
        r.invoke == (call_type != MQCBCT_DEREGISTER_CALL || options & MQCBDO_DEREGISTER_CALL == MQCBDO_DEREGISTER_CALL),
{
    let is_deregister = call_type == MQCBCT_DEREGISTER_CALL;
    EventDispatch {
        invoke: !is_deregister || options & MQCBDO_DEREGISTER_CALL == MQCBDO_DEREGISTER_CALL,
        release: is_deregister,
    }
}

} // verus!
