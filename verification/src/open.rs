use vstd::prelude::*;

use crate::constants::{
    MQOD_VERSION_3, MQOD_VERSION_4, MQOO_ALTERNATE_USER_AUTHORITY, MQOO_BIND_AS_Q_DEF, MQOT_Q, MQOT_Q_MGR, MQOT_TOPIC,
    MQPMO_ALTERNATE_USER_AUTHORITY,
};
use crate::mqstr::{all_pad, MqStr};
use crate::strings::{EncodedString, StrCcsidOwned, StringCcsid};
use crate::structs::{spec_ccsid_value, spec_raised, MqStruct, Mqod};
use crate::types::{QueueManagerName, QueueName};
use crate::values::{MqMask, MQOO, MQPMO};

verus! {

/// The parameters of an open call: the object descriptor and the options of type `T`.
pub struct OpenParamOption<'a, T> {
    pub mqod: MqStruct<Mqod<'a>>,
    pub options: T,
}

/// The parameters of `MQOPEN`.
pub type OpenParam<'a> = OpenParamOption<'a, MqMask<MQOO>>;

/// A value that fills in the parameters of an open call.
pub trait OpenOption<'oo, T> {
    /// The option can be applied: the strings it attaches fit the MQ length fields.
    spec fn spec_applicable(&self) -> bool;

    /// Whether the option can be applied.
    fn applicable(&self) -> (b: bool)
        ensures
            b == self.spec_applicable(),
    ;

    /// How applying the option changes the parameters.
    spec fn spec_apply(&self, before: OpenParamOption<'oo, T>, after: OpenParamOption<'oo, T>) -> bool;

    /// Fill in the parameters.
    fn apply_param(&self, param: &mut OpenParamOption<'oo, T>)
        requires
            self.spec_applicable(),
        ensures
            self.spec_apply(*old(param), *final(param)),
    ;
}

/// An absent option changes nothing.
impl<'oo, T, O: OpenOption<'oo, T>> OpenOption<'oo, T> for Option<O> {
    open spec fn spec_applicable(&self) -> bool {
        match self {
            Some(o) => o.spec_applicable(),
            None => true,
        }
    }

    fn applicable(&self) -> (b: bool) {
        match self {
            Some(o) => o.applicable(),
            None => true,
        }
    }

    open spec fn spec_apply(&self, before: OpenParamOption<'oo, T>, after: OpenParamOption<'oo, T>) -> bool {
        match self {
            Some(o) => o.spec_apply(before, after),
            None => after == before,
        }
    }

    fn apply_param(&self, param: &mut OpenParamOption<'oo, T>) {
        match self {
            Some(value) => value.apply_param(param),
            None => {},
        }
    }
}

/// Nothing to apply.
impl<'oo, T> OpenOption<'oo, T> for () {
    open spec fn spec_applicable(&self) -> bool {
        true
    }

    fn applicable(&self) -> (b: bool) {
        true
    }

    open spec fn spec_apply(&self, before: OpenParamOption<'oo, T>, after: OpenParamOption<'oo, T>) -> bool {
        after == before
    }

    fn apply_param(&self, param: &mut OpenParamOption<'oo, T>) {
    }
}

/// Two options: the second is applied first, then the first.
impl<'oo, T, A: OpenOption<'oo, T>, B: OpenOption<'oo, T>> OpenOption<'oo, T> for (A, B) {
    open spec fn spec_applicable(&self) -> bool {
        self.0.spec_applicable() && self.1.spec_applicable()
    }

    fn applicable(&self) -> (b: bool) {
        self.0.applicable() && self.1.applicable()
    }

    open spec fn spec_apply(&self, before: OpenParamOption<'oo, T>, after: OpenParamOption<'oo, T>) -> bool {
        exists|mid: OpenParamOption<'oo, T>|
            #![trigger self.1.spec_apply(before, mid)]
            self.1.spec_apply(before, mid) && self.0.spec_apply(mid, after)
    }

    fn apply_param(&self, param: &mut OpenParamOption<'oo, T>) {
        let ghost before = *param;
        self.1.apply_param(param);
        let ghost mid = *param;
        self.0.apply_param(param);
        assert(self.1.spec_apply(before, mid));
    }
}

/// Three options: they are applied from the last to the first.
impl<'oo, T, A: OpenOption<'oo, T>, B: OpenOption<'oo, T>, C: OpenOption<'oo, T>> OpenOption<'oo, T> for (
    A,
    B,
    C,
) {
    open spec fn spec_applicable(&self) -> bool {
        self.0.spec_applicable() && self.1.spec_applicable() && self.2.spec_applicable()
    }

    fn applicable(&self) -> (b: bool) {
        self.0.applicable() && self.1.applicable() && self.2.applicable()
    }

    open spec fn spec_apply(&self, before: OpenParamOption<'oo, T>, after: OpenParamOption<'oo, T>) -> bool {
        exists|m1: OpenParamOption<'oo, T>, m2: OpenParamOption<'oo, T>|
            #![trigger self.2.spec_apply(before, m1), self.1.spec_apply(m1, m2)]
            self.2.spec_apply(before, m1) && self.1.spec_apply(m1, m2) && self.0.spec_apply(m2, after)
    }

    fn apply_param(&self, param: &mut OpenParamOption<'oo, T>) {
        let ghost before = *param;
        self.2.apply_param(param);
        let ghost m1 = *param;
        self.1.apply_param(param);
        let ghost m2 = *param;
        self.0.apply_param(param);
        assert(self.2.spec_apply(before, m1) && self.1.spec_apply(m1, m2));
    }
}

/// A selection string to open with.
#[derive(Debug, Clone, Copy)]
pub struct SelectionString<T>(pub T);

/// An object string to open, a topic.
#[derive(Debug, Clone, Copy)]
pub struct ObjectString<T>(pub T);

/// A user whose authority the open uses.
#[derive(Debug, Clone, Copy)]
pub struct AlternateUserId(pub MqStr<12>);

/// The object string that an open resolved to.
#[derive(Debug, Clone)]
pub struct ResObjectString(pub StrCcsidOwned);

/// The selection string is attached to the object descriptor, raised to version 4.
impl<'a, S: EncodedString + ?Sized, T> OpenOption<'a, T> for SelectionString<&'a S> {
    open spec fn spec_applicable(&self) -> bool {
        self.0.spec_data().len() <= i32::MAX
    }

    fn applicable(&self) -> (b: bool) {
        self.0.data().len() <= i32::MAX as usize
    }

    open spec fn spec_apply(&self, before: OpenParamOption<'a, T>, after: OpenParamOption<'a, T>) -> bool {
        let a = after.mqod.struc.selection_string;
        &&& a.vs matches Some(d) && d@ == self.0.spec_data()
        &&& after == OpenParamOption {
            mqod: MqStruct {
                struc: Mqod {
                    version: spec_raised(before.mqod.struc.version, 4),
                    selection_string: crate::structs::Mqcharv {
                        vs: a.vs,
                        vs_length: self.0.spec_data().len() as i32,
                        vs_ccsid: spec_ccsid_value(self.0.spec_ccsid()),
                        ..before.mqod.struc.selection_string
                    },
                    ..before.mqod.struc
                },
            },
            ..before
        }
    }

    fn apply_param(&self, param: &mut OpenParamOption<'a, T>) {
        param.mqod.attach_selection_string(self.0);
    }
}

/// The object string is attached to the object descriptor, raised to version 4, and the
/// object is a topic.
impl<'a, S: EncodedString + ?Sized, T> OpenOption<'a, T> for ObjectString<&'a S> {
    open spec fn spec_applicable(&self) -> bool {
        self.0.spec_data().len() <= i32::MAX
    }

    fn applicable(&self) -> (b: bool) {
        self.0.data().len() <= i32::MAX as usize
    }

    open spec fn spec_apply(&self, before: OpenParamOption<'a, T>, after: OpenParamOption<'a, T>) -> bool {
        let a = after.mqod.struc.object_string;
        &&& a.vs matches Some(d) && d@ == self.0.spec_data()
        &&& after == OpenParamOption {
            mqod: MqStruct {
                struc: Mqod {
                    version: spec_raised(before.mqod.struc.version, 4),
                    object_type: MQOT_TOPIC,
                    object_string: crate::structs::Mqcharv {
                        vs: a.vs,
                        vs_length: self.0.spec_data().len() as i32,
                        vs_ccsid: spec_ccsid_value(self.0.spec_ccsid()),
                        ..before.mqod.struc.object_string
                    },
                    ..before.mqod.struc
                },
            },
            ..before
        }
    }

    fn apply_param(&self, param: &mut OpenParamOption<'a, T>) {
        param.mqod.struc.object_type = MQOT_TOPIC;
        param.mqod.attach_object_string(self.0);
    }
}

/// The queue name is the object name, and the object is a queue.
impl<'a, T> OpenOption<'a, T> for QueueName {
    open spec fn spec_applicable(&self) -> bool {
        true
    }

    fn applicable(&self) -> (b: bool) {
        true
    }

    open spec fn spec_apply(&self, before: OpenParamOption<'a, T>, after: OpenParamOption<'a, T>) -> bool {
        after == OpenParamOption {
            mqod: MqStruct { struc: Mqod { object_name: self.0, object_type: MQOT_Q, ..before.mqod.struc } },
            ..before
        }
    }

    fn apply_param(&self, param: &mut OpenParamOption<'a, T>) {
        param.mqod.struc.object_name = self.0;
        param.mqod.struc.object_type = MQOT_Q;
    }
}

/// The queue manager name is the object queue manager name, and the object is a queue
/// manager.
impl<'a, T> OpenOption<'a, T> for QueueManagerName {
    open spec fn spec_applicable(&self) -> bool {
        true
    }

    fn applicable(&self) -> (b: bool) {
        true
    }

    open spec fn spec_apply(&self, before: OpenParamOption<'a, T>, after: OpenParamOption<'a, T>) -> bool {
        after == OpenParamOption {
            mqod: MqStruct {
                struc: Mqod { object_qmgr_name: self.0, object_type: MQOT_Q_MGR, ..before.mqod.struc },
            },
            ..before
        }
    }

    fn apply_param(&self, param: &mut OpenParamOption<'a, T>) {
        param.mqod.struc.object_qmgr_name = self.0;
        param.mqod.struc.object_type = MQOT_Q_MGR;
    }
}

/// The open options are added.
impl<'a> OpenOption<'a, MqMask<MQOO>> for MqMask<MQOO> {
    open spec fn spec_applicable(&self) -> bool {
        true
    }

    fn applicable(&self) -> (b: bool) {
        true
    }

    open spec fn spec_apply(
        &self,
        before: OpenParamOption<'a, MqMask<MQOO>>,
        after: OpenParamOption<'a, MqMask<MQOO>>,
    ) -> bool {
        after == OpenParamOption { options: MqMask { value: before.options.value | self.value, ..before.options }, ..before }
    }

    fn apply_param(&self, param: &mut OpenParamOption<'a, MqMask<MQOO>>) {
        param.options.insert(self.value);
    }
}

/// The put message options are added.
impl<'a> OpenOption<'a, MqMask<MQPMO>> for MqMask<MQPMO> {
    open spec fn spec_applicable(&self) -> bool {
        true
    }

    fn applicable(&self) -> (b: bool) {
        true
    }

    open spec fn spec_apply(
        &self,
        before: OpenParamOption<'a, MqMask<MQPMO>>,
        after: OpenParamOption<'a, MqMask<MQPMO>>,
    ) -> bool {
        after == OpenParamOption { options: MqMask { value: before.options.value | self.value, ..before.options }, ..before }
    }

    fn apply_param(&self, param: &mut OpenParamOption<'a, MqMask<MQPMO>>) {
        param.options.insert(self.value);
    }
}

/// The alternate user is set in the object descriptor, raised to version 3, with the
/// alternate user authority open option.
impl<'a> OpenOption<'a, MqMask<MQOO>> for AlternateUserId {
    open spec fn spec_applicable(&self) -> bool {
        true
    }

    fn applicable(&self) -> (b: bool) {
        true
    }

    open spec fn spec_apply(
        &self,
        before: OpenParamOption<'a, MqMask<MQOO>>,
        after: OpenParamOption<'a, MqMask<MQOO>>,
    ) -> bool {
        after == OpenParamOption {
            mqod: MqStruct {
                struc: Mqod {
                    version: spec_raised(before.mqod.struc.version, MQOD_VERSION_3),
                    alternate_user_id: self.0,
                    ..before.mqod.struc
                },
            },
            options: MqMask { value: before.options.value | MQOO_ALTERNATE_USER_AUTHORITY, ..before.options },
        }
    }

    fn apply_param(&self, param: &mut OpenParamOption<'a, MqMask<MQOO>>) {
        param.options.insert(MQOO_ALTERNATE_USER_AUTHORITY);
        param.mqod.set_min_version(MQOD_VERSION_3);
        param.mqod.struc.alternate_user_id = self.0;
    }
}

/// The alternate user is set in the object descriptor, raised to version 3, with the
/// alternate user authority put option.
impl<'a> OpenOption<'a, MqMask<MQPMO>> for AlternateUserId {
    open spec fn spec_applicable(&self) -> bool {
        true
    }

    fn applicable(&self) -> (b: bool) {
        true
    }

    open spec fn spec_apply(
        &self,
        before: OpenParamOption<'a, MqMask<MQPMO>>,
        after: OpenParamOption<'a, MqMask<MQPMO>>,
    ) -> bool {
        after == OpenParamOption {
            mqod: MqStruct {
                struc: Mqod {
                    version: spec_raised(before.mqod.struc.version, MQOD_VERSION_3),
                    alternate_user_id: self.0,
                    ..before.mqod.struc
                },
            },
            options: MqMask { value: before.options.value | MQPMO_ALTERNATE_USER_AUTHORITY, ..before.options },
        }
    }

    fn apply_param(&self, param: &mut OpenParamOption<'a, MqMask<MQPMO>>) {
        param.options.insert(MQPMO_ALTERNATE_USER_AUTHORITY);
        param.mqod.set_min_version(MQOD_VERSION_3);
        param.mqod.struc.alternate_user_id = self.0;
    }
}

/// A name when it holds a value, none when it is blank.
pub open spec fn spec_named<const N: usize>(name: MqStr<N>) -> Option<MqStr<N>> {
    if all_pad(name@) {
        None
    } else {
        Some(name)
    }
}

/// The queue name that an open resolved to, when there is one.
pub fn resolved_queue_name(od: &Mqod) -> (r: Option<QueueName>)
    ensures
        r == (match spec_named(od.resolved_q_name) {
            Some(n) => Some(QueueName(n)),
            None => None,
        }),
{
    let name = QueueName(od.resolved_q_name);
    if name.0.has_value() {
        Some(name)
    } else {
        None
    }
}

/// The queue manager name that an open resolved to, when there is one.
pub fn resolved_queue_manager_name(od: &Mqod) -> (r: Option<QueueManagerName>)
    ensures
        r == (match spec_named(od.resolved_qmgr_name) {
            Some(n) => Some(QueueManagerName(n)),
            None => None,
        }),
{
    let name = QueueManagerName(od.resolved_qmgr_name);
    if name.0.has_value() {
        Some(name)
    } else {
        None
    }
}

/// Ask for the resolved names of an open: the object descriptor is raised to version 3.
pub fn request_resolved_names<'a, T>(param: &mut OpenParamOption<'a, T>)
    ensures
        final(param).mqod.struc == (Mqod {
            version: spec_raised(old(param).mqod.struc.version, MQOD_VERSION_3),
            ..old(param).mqod.struc
        }),
        final(param).options == old(param).options,
{
    param.mqod.set_min_version(MQOD_VERSION_3);
}

/// Ask for the resolved object type of an open: the object descriptor is raised to version 4.
pub fn request_resolved_type<'a, T>(param: &mut OpenParamOption<'a, T>)
    ensures
        final(param).mqod.struc == (Mqod {
            version: spec_raised(old(param).mqod.struc.version, MQOD_VERSION_4),
            ..old(param).mqod.struc
        }),
        final(param).options == old(param).options,
{
    param.mqod.set_min_version(MQOD_VERSION_4);
}

/// The buffer size asked for the resolved object string: 4096 bytes unless the object
/// descriptor asks for a size.
pub const DEFAULT_RESOBJECTSTRING_LENGTH: i32 = 4096;

/// Ask for the resolved object string of an open: a buffer of the size the descriptor asks
/// for, or 4096 bytes when it asks none. Returns the buffer size.
pub fn request_res_object_string<'a, T>(param: &mut OpenParamOption<'a, T>) -> (size: i32)
    ensures
        size == (if old(param).mqod.struc.res_object_string.vs_buf_size == 0 {
            DEFAULT_RESOBJECTSTRING_LENGTH
        } else {
            old(param).mqod.struc.res_object_string.vs_buf_size
        }),
        final(param).mqod.struc.res_object_string.vs_buf_size == size,
        final(param).options == old(param).options,
{
    if param.mqod.struc.res_object_string.vs_buf_size == 0 {
        param.mqod.struc.res_object_string.vs_buf_size = DEFAULT_RESOBJECTSTRING_LENGTH;
    }
    param.mqod.struc.res_object_string.vs_buf_size
}

/// The resolved object string of an open from the bytes MQ wrote and their CCSID: none when
/// no byte was written.
pub fn resolved_object_string(buffer: Vec<u8>, ccsid: i32) -> (r: Option<ResObjectString>)
    ensures
        buffer@.len() == 0 ==> r is None,
        buffer@.len() > 0 ==> (r matches Some(s) && s.0.data@ == buffer@ && s.0.ccsid == (if ccsid
            == 0 {
            None
        } else {
            Some(ccsid)
        }) && s.0.le == crate::strings::NATIVE_IS_LE),
{
    if buffer.len() == 0 {
        None
    } else {
        let c = if ccsid == 0 {
            None
        } else {
            Some(ccsid)
        };
        Some(ResObjectString(StringCcsid::from_vec(buffer, c)))
    }
}

/// The names of an opened object: its name, and its queue manager name, resolved queue name
/// and resolved queue manager name when they hold values.
#[derive(Debug, Clone, Copy)]
pub struct OpenedNames {
    pub name: MqStr<48>,
    pub qmgr_name: Option<MqStr<48>>,
    pub resolved_name: Option<MqStr<48>>,
    pub resolved_qmgr_name: Option<MqStr<48>>,
}

/// A name when it holds a value.
fn named(name: MqStr<48>) -> (r: Option<MqStr<48>>)
    ensures
        r == spec_named(name),
{
    if name.has_value() {
        Some(name)
    } else {
        None
    }
}

/// The names of an object opened with the descriptor `od`.
pub fn opened_names(od: &Mqod) -> (r: OpenedNames)
    ensures
        r.name == od.object_name,
        r.qmgr_name == spec_named(od.object_qmgr_name),
        r.resolved_name == spec_named(od.resolved_q_name),
        r.resolved_qmgr_name == spec_named(od.resolved_qmgr_name),
{
    OpenedNames {
        name: od.object_name,
        qmgr_name: named(od.object_qmgr_name),
        resolved_name: named(od.resolved_q_name),
        resolved_qmgr_name: named(od.resolved_qmgr_name),
    }
}

/// The parameters of an open: the default object descriptor, the binding of the queue
/// definition as the options, then the option applied.
pub fn open_param<'oo, O: OpenOption<'oo, MqMask<MQOO>>>(option: &O) -> (r: OpenParam<'oo>)
    requires
        option.spec_applicable(),
    ensures
        (exists|init: OpenParam<'oo>|
            #![trigger option.spec_apply(init, r)]
            init.mqod.struc.is_default() && init.options.value == MQOO_BIND_AS_Q_DEF && option.spec_apply(
                init,
                r,
            )),
{
    let mut param = OpenParamOption {
        mqod: MqStruct::new(Mqod::default_value()),
        options: MqMask::<MQOO>::from(MQOO_BIND_AS_Q_DEF),
    };
    let ghost init = param;
    option.apply_param(&mut param);
    param
}

} // verus!
