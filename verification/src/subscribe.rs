use vstd::prelude::*;

use crate::constants::{
    MQHO_NONE, MQSD_VERSION_1, MQSO_MANAGED, MQSO_NONE, MQSRO_NONE, MQSRO_VERSION_1,
    MQSR_ACTION_PUBLICATION,
};
use crate::mqstr::MqStr;
use crate::open::ObjectString;
use crate::strings::EncodedString;
use crate::structs::{spec_ccsid_value, Mqcharv, MqStruct, Mqsd};
use crate::values::{MqMask, MqValue, MQCO, MQSO, MQSR, MQSRO};

verus! {

/// The fields of the subscription request options (`MQSRO`): the options, and the number of
/// publications sent, which the request fills.
#[derive(Debug, Clone, Copy, PartialEq, Eq, Structural)]
pub struct Mqsro {
    pub version: i32,
    pub options: i32,
    pub num_pubs: i32,
}

/// The parameters of a subscription: the subscription descriptor, the options the
/// subscription is closed with, and the handle of an object given to receive publications.
pub struct SubscribeParam<'a> {
    pub sd: MqStruct<Mqsd<'a>>,
    pub close_options: MqMask<MQCO>,
    pub provided_object: i32,
}

/// The default subscription descriptor: version 1, no options, a name of nul bytes, no
/// strings.
pub open spec fn is_default_sd(sd: Mqsd) -> bool {
    &&& sd.version == MQSD_VERSION_1
    &&& sd.options == MQSO_NONE
    &&& sd.object_name@ == Seq::new(48, |i: int| 0u8)
    &&& sd.object_string.is_empty()
    &&& sd.sub_name.is_empty()
    &&& sd.selection_string.is_empty()
}

impl<'a> SubscribeParam<'a> {
    /// The parameters a subscription starts from: the default descriptor, no close options,
    /// no object.
    pub fn new() -> (r: Self)
        ensures
            is_default_sd(r.sd.struc),
            r.close_options.value == 0,
            r.provided_object == MQHO_NONE,
    {
        let p = SubscribeParam {
            sd: MqStruct::new(
                Mqsd {
                    version: MQSD_VERSION_1,
                    options: MQSO_NONE,
                    object_name: MqStr { data: [0u8; 48] },
                    object_string: Mqcharv::empty(),
                    sub_name: Mqcharv::empty(),
                    selection_string: Mqcharv::empty(),
                },
            ),
            close_options: MqMask::<MQCO>::from(0),
            provided_object: MQHO_NONE,
        };
        assert(p.sd.struc.object_name@ =~= Seq::new(48, |i: int| 0u8));
        p
    }
}

/// The parameters of a request for retained publications: the options and the action.
#[derive(Debug, Clone, Copy)]
pub struct SubscribeRequestParam {
    pub sro: MqStruct<Mqsro>,
    pub sr: MqValue<MQSR>,
}

impl SubscribeRequestParam {
    /// The parameters a request starts from: the default options and the publication
    /// action.
    pub fn new() -> (r: Self)
        ensures
            r.sro.struc == (Mqsro { version: MQSRO_VERSION_1, options: MQSRO_NONE, num_pubs: 0 }),
            r.sr.value == MQSR_ACTION_PUBLICATION,
    {
        SubscribeRequestParam {
            sro: MqStruct::new(Mqsro { version: MQSRO_VERSION_1, options: MQSRO_NONE, num_pubs: 0 }),
            sr: MqValue::<MQSR>::from(MQSR_ACTION_PUBLICATION),
        }
    }
}

/// A value that fills in the parameters of a subscription.
pub trait SubscribeOption<'so> {
    /// The option can be applied: the strings it attaches fit the MQ length fields.
    spec fn spec_applicable(&self) -> bool;

    /// Whether the option can be applied.
    fn applicable(&self) -> (b: bool)
        ensures
            b == self.spec_applicable(),
    ;

    /// How applying the option changes the parameters.
    spec fn spec_apply(&self, before: SubscribeParam<'so>, after: SubscribeParam<'so>) -> bool;

    /// Fill in the parameters.
    fn apply_param(&self, param: &mut SubscribeParam<'so>)
        requires
            self.spec_applicable(),
        ensures
            self.spec_apply(*old(param), *final(param)),
    ;
}

/// A value that fills in the parameters of a request for retained publications.
pub trait SubscribeRequestOption {
    /// How applying the option changes the parameters.
    spec fn spec_apply(&self, before: SubscribeRequestParam, after: SubscribeRequestParam) -> bool;

    /// Fill in the parameters.
    fn apply_param(&self, param: &mut SubscribeRequestParam)
        ensures
            self.spec_apply(*old(param), *final(param)),
    ;
}

/// Nothing to apply.
impl<'so> SubscribeOption<'so> for () {
    open spec fn spec_applicable(&self) -> bool {
        true
    }

    fn applicable(&self) -> (b: bool) {
        true
    }

    open spec fn spec_apply(&self, before: SubscribeParam<'so>, after: SubscribeParam<'so>) -> bool {
        after == before
    }

    fn apply_param(&self, param: &mut SubscribeParam<'so>) {
    }
}

/// An absent option changes nothing.
impl<'so, O: SubscribeOption<'so>> SubscribeOption<'so> for Option<O> {
    open spec fn spec_applicable(&self) -> bool {
        match self {
            Some(o) => o.spec_applicable(),
            None => true,
        }
    }

    fn applicable(&self) -> (b: bool) {
        match self {
            Some(o) => o.applicable(),
            None => true,
        }
    }

    open spec fn spec_apply(&self, before: SubscribeParam<'so>, after: SubscribeParam<'so>) -> bool {
        match self {
            Some(o) => o.spec_apply(before, after),
            None => after == before,
        }
    }

    fn apply_param(&self, param: &mut SubscribeParam<'so>) {
        match self {
            Some(o) => o.apply_param(param),
            None => {},
        }
    }
}

/// Two options: the second is applied first, then the first.
impl<'so, A: SubscribeOption<'so>, B: SubscribeOption<'so>> SubscribeOption<'so> for (A, B) {
    open spec fn spec_applicable(&self) -> bool {
        self.0.spec_applicable() && self.1.spec_applicable()
    }

    fn applicable(&self) -> (b: bool) {
        self.0.applicable() && self.1.applicable()
    }

    open spec fn spec_apply(&self, before: SubscribeParam<'so>, after: SubscribeParam<'so>) -> bool {
        exists|mid: SubscribeParam<'so>|
            #![trigger self.1.spec_apply(before, mid)]
            self.1.spec_apply(before, mid) && self.0.spec_apply(mid, after)
    }

    fn apply_param(&self, param: &mut SubscribeParam<'so>) {
        let ghost before = *param;
        self.1.apply_param(param);
        let ghost mid = *param;
        self.0.apply_param(param);
        assert(self.1.spec_apply(before, mid));
    }
}

/// Three options: they are applied from the last to the first.
impl<'so, A: SubscribeOption<'so>, B: SubscribeOption<'so>, C: SubscribeOption<'so>> SubscribeOption<'so> for (
    A,
    B,
    C,
) {
    open spec fn spec_applicable(&self) -> bool {
        self.0.spec_applicable() && self.1.spec_applicable() && self.2.spec_applicable()
    }

    fn applicable(&self) -> (b: bool) {
        self.0.applicable() && self.1.applicable() && self.2.applicable()
    }

    open spec fn spec_apply(&self, before: SubscribeParam<'so>, after: SubscribeParam<'so>) -> bool {
        exists|m1: SubscribeParam<'so>, m2: SubscribeParam<'so>|
            #![trigger self.2.spec_apply(before, m1), self.1.spec_apply(m1, m2)]
            self.2.spec_apply(before, m1) && self.1.spec_apply(m1, m2) && self.0.spec_apply(m2, after)
    }

    fn apply_param(&self, param: &mut SubscribeParam<'so>) {
        let ghost before = *param;
        self.2.apply_param(param);
        let ghost m1 = *param;
        self.1.apply_param(param);
        let ghost m2 = *param;
        self.0.apply_param(param);
        assert(self.2.spec_apply(before, m1) && self.1.spec_apply(m1, m2));
    }
}

/// The topic string subscribed to is attached to the subscription descriptor.
impl<'so, S: EncodedString + ?Sized> SubscribeOption<'so> for ObjectString<&'so S> {
    open spec fn spec_applicable(&self) -> bool {
        self.0.spec_data().len() <= i32::MAX
    }

    fn applicable(&self) -> (b: bool) {
        self.0.data().len() <= i32::MAX as usize
    }

    open spec fn spec_apply(&self, before: SubscribeParam<'so>, after: SubscribeParam<'so>) -> bool {
        let a = after.sd.struc.object_string;
        &&& a.vs matches Some(d) && d@ == self.0.spec_data()
        &&& after == SubscribeParam {
            sd: MqStruct {
                struc: Mqsd {
                    object_string: Mqcharv {
                        vs: a.vs,
                        vs_length: self.0.spec_data().len() as i32,
                        vs_ccsid: spec_ccsid_value(self.0.spec_ccsid()),
                        ..before.sd.struc.object_string
                    },
                    ..before.sd.struc
                },
            },
            ..before
        }
    }

    fn apply_param(&self, param: &mut SubscribeParam<'so>) {
        param.sd.attach_object_string(self.0);
    }
}

/// The close options are added to those the subscription is closed with.
impl<'so> SubscribeOption<'so> for MqMask<MQCO> {
    open spec fn spec_applicable(&self) -> bool {
        true
    }

    fn applicable(&self) -> (b: bool) {
        true
    }

    open spec fn spec_apply(&self, before: SubscribeParam<'so>, after: SubscribeParam<'so>) -> bool {
        after == SubscribeParam {
            close_options: MqMask { value: before.close_options.value | self.value, ..before.close_options },
            ..before
        }
    }

    fn apply_param(&self, param: &mut SubscribeParam<'so>) {
        param.close_options.insert(self.value);
    }
}

/// The subscription options are added to the descriptor's options.
impl<'so> SubscribeOption<'so> for MqMask<MQSO> {
    open spec fn spec_applicable(&self) -> bool {
        true
    }

    fn applicable(&self) -> (b: bool) {
        true
    }

    open spec fn spec_apply(&self, before: SubscribeParam<'so>, after: SubscribeParam<'so>) -> bool {
        after == SubscribeParam {
            sd: MqStruct { struc: Mqsd { options: before.sd.struc.options | self.value, ..before.sd.struc } },
            ..before
        }
    }

    fn apply_param(&self, param: &mut SubscribeParam<'so>) {
        param.sd.struc.options = param.sd.struc.options | self.value;
    }
}

/// An object handle (`MQHOBJ`) to receive the publications.
#[derive(Debug, Clone, Copy, PartialEq, Eq, Structural)]
pub struct ProvidedObject(pub i32);

/// The given object receives the publications.
impl<'so> SubscribeOption<'so> for ProvidedObject {
    open spec fn spec_applicable(&self) -> bool {
        true
    }

    fn applicable(&self) -> (b: bool) {
        true
    }

    open spec fn spec_apply(&self, before: SubscribeParam<'so>, after: SubscribeParam<'so>) -> bool {
        after == SubscribeParam { provided_object: self.0, ..before }
    }

    fn apply_param(&self, param: &mut SubscribeParam<'so>) {
        param.provided_object = self.0;
    }
}

/// Nothing to apply.
impl SubscribeRequestOption for () {
    open spec fn spec_apply(&self, before: SubscribeRequestParam, after: SubscribeRequestParam) -> bool {
        after == before
    }

    fn apply_param(&self, param: &mut SubscribeRequestParam) {
    }
}

/// The action of the request.
impl SubscribeRequestOption for MqValue<MQSR> {
    open spec fn spec_apply(&self, before: SubscribeRequestParam, after: SubscribeRequestParam) -> bool {
        after == SubscribeRequestParam { sr: *self, ..before }
    }

    fn apply_param(&self, param: &mut SubscribeRequestParam) {
        param.sr = *self;
    }
}

/// The request options are added to the request's options.
impl SubscribeRequestOption for MqMask<MQSRO> {
    open spec fn spec_apply(&self, before: SubscribeRequestParam, after: SubscribeRequestParam) -> bool {
        after == SubscribeRequestParam {
            sro: MqStruct { struc: Mqsro { options: before.sro.struc.options | self.value, ..before.sro.struc } },
            ..before
        }
    }

    fn apply_param(&self, param: &mut SubscribeRequestParam) {
        param.sro.struc.options = param.sro.struc.options | self.value;
    }
}

/// Two request options: the second is applied first, then the first.
impl<A: SubscribeRequestOption, B: SubscribeRequestOption> SubscribeRequestOption for (A, B) {
    open spec fn spec_apply(&self, before: SubscribeRequestParam, after: SubscribeRequestParam) -> bool {
        exists|mid: SubscribeRequestParam|
            #![trigger self.1.spec_apply(before, mid)]
            self.1.spec_apply(before, mid) && self.0.spec_apply(mid, after)
    }

    fn apply_param(&self, param: &mut SubscribeRequestParam) {
        let ghost before = *param;
        self.1.apply_param(param);
        let ghost mid = *param;
        self.0.apply_param(param);
        assert(self.1.spec_apply(before, mid));
    }
}

/// The object a subscription call returns as its own: none where the returned handle is
/// none or the handle that was given.
pub open spec fn spec_subscription_object(provided: i32, returned: i32) -> Option<i32> {
    if returned == MQHO_NONE || returned == provided {
        None
    } else {
        Some(returned)
    }
}

/// The object a subscription call returns as its own: none where the returned handle is
/// none or the handle that was given.
pub fn subscription_object(provided: i32, returned: i32) -> (r: Option<i32>)
    ensures
        r == spec_subscription_object(provided, returned),
{
    if returned == MQHO_NONE || returned == provided {
        None
    } else {
        Some(returned)
    }
}

/// The parameters a subscription starts from: the default descriptor, no close options,
/// no object.
pub open spec fn is_default_param(p: SubscribeParam) -> bool {
    is_default_sd(p.sd.struc) && p.close_options.value == 0 && p.provided_object == MQHO_NONE
}

/// The parameters with `MQSO_MANAGED` added to the subscription options.
pub open spec fn with_managed<'so>(p: SubscribeParam<'so>) -> SubscribeParam<'so> {
    SubscribeParam {
        sd: MqStruct { struc: Mqsd { options: p.sd.struc.options | MQSO_MANAGED, ..p.sd.struc } },
        ..p
    }
}

/// The parameters of a subscription: the caller's option applied to the default
/// parameters.
pub fn subscribe_param<'so, O: SubscribeOption<'so>>(option: &O) -> (r: SubscribeParam<'so>)
    requires
        option.spec_applicable(),
    ensures
        (exists|init: SubscribeParam<'so>|
            #![trigger option.spec_apply(init, r)]
            is_default_param(init) && option.spec_apply(init, r)),
{
    let mut param = SubscribeParam::new();
    let ghost init = param;
    option.apply_param(&mut param);
    param
}

/// The parameters of a managed subscription: the caller's option applied to the default
/// parameters, then `MQSO_MANAGED` added to the subscription options.
pub fn subscribe_managed_param<'so, O: SubscribeOption<'so>>(option: &O) -> (r: SubscribeParam<'so>)
    requires
        option.spec_applicable(),
    ensures
        (exists|init: SubscribeParam<'so>, mid: SubscribeParam<'so>|
            #![trigger option.spec_apply(init, mid)]
            is_default_param(init) && option.spec_apply(init, mid) && r == with_managed(mid)),
{
    let mut param = SubscribeParam::new();
    let ghost init = param;
    option.apply_param(&mut param);
    let ghost mid = param;
    param.sd.struc.options = param.sd.struc.options | MQSO_MANAGED;
    param
}

/// The parameters of a request for retained publications: the caller's option applied to
/// the default options and the publication action.
pub fn subscribe_request_param<O: SubscribeRequestOption>(option: &O) -> (r: SubscribeRequestParam)
    ensures
        (exists|init: SubscribeRequestParam|
            #![trigger option.spec_apply(init, r)]
            init.sro.struc == (Mqsro { version: MQSRO_VERSION_1, options: MQSRO_NONE, num_pubs: 0 })
                && init.sr.value == MQSR_ACTION_PUBLICATION && option.spec_apply(init, r)),
{
    let mut param = SubscribeRequestParam::new();
    let ghost init = param;
    option.apply_param(&mut param);
    param
}

} // verus!
