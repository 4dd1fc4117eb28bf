use vstd::prelude::*;

use crate::values::{BagHandle, MqValue, MQXA};

verus! {

/// A selector of a bag item to inquire, with the index of the item where it names one.
pub trait InqSelect {
    /// The selector.
    spec fn spec_selector(&self) -> MqValue<MQXA>;

    /// The index of the item, if the selection names one.
    spec fn spec_index(&self) -> Option<i32>;

    /// The selector.
    fn selector(&self) -> (r: MqValue<MQXA>)
        ensures
            r == self.spec_selector(),
    ;

    /// The index of the item, if the selection names one.
    fn index(&self) -> (r: Option<i32>)
        ensures
            r == self.spec_index(),
    ;
}

/// A selector alone selects without an index.
impl InqSelect for MqValue<MQXA> {
    open spec fn spec_selector(&self) -> MqValue<MQXA> {
        *self
    }

    open spec fn spec_index(&self) -> Option<i32> {
        None
    }

    fn selector(&self) -> (r: MqValue<MQXA>) {
        *self
    }

    fn index(&self) -> (r: Option<i32>) {
        None
    }
}

/// A selector with the index of the item.
impl InqSelect for (MqValue<MQXA>, i32) {
    open spec fn spec_selector(&self) -> MqValue<MQXA> {
        self.0
    }

    open spec fn spec_index(&self) -> Option<i32> {
        Some(self.1)
    }

    fn selector(&self) -> (r: MqValue<MQXA>) {
        self.0
    }

    fn index(&self) -> (r: Option<i32>) {
        Some(self.1)
    }
}

/// How a bag is disposed of when it is dropped.
pub trait BagDrop {
    /// The bag is deleted when it is dropped.
    spec fn spec_deletes(handle: BagHandle) -> bool;

    /// The bag is deleted when it is dropped.
    fn deletes(handle: BagHandle) -> (b: bool)
        ensures
            b == Self::spec_deletes(handle),
    ;
}

/// A bag that the application created: it is deleted when dropped, if its handle can be.
#[derive(Debug, Clone, Copy)]
pub struct Owned;

/// A bag nested in another: the outer bag deletes it.
#[derive(Debug, Clone, Copy)]
pub struct Embedded;

impl BagDrop for Owned {
    open spec fn spec_deletes(handle: BagHandle) -> bool {
        handle.spec_is_deletable()
    }

    fn deletes(handle: BagHandle) -> (b: bool) {
        handle.is_deletable()
    }
}

impl BagDrop for Embedded {
    open spec fn spec_deletes(handle: BagHandle) -> bool {
        false
    }

    fn deletes(handle: BagHandle) -> (b: bool) {
        false
    }
}

} // verus!
