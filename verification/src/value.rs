//! The tagged value that carries property values and signal arguments.
use vstd::prelude::*;
use crate::types::Type;

verus! {

/// A dynamically typed value: a type tag and the payload that goes with it.
///
/// A value owns its payload. It cannot be copied implicitly, so handing it
/// on always moves the payload.
#[derive(Debug, PartialEq, Eq, Structural)]
pub struct Value {
    pub type_: Type,
    pub data: u64,
}

impl Value {
    /// The state of a slot that holds nothing.
    pub open spec fn unset_value() -> Value {
        Value { type_: Type::spec_invalid(), data: 0 }
    }

    /// A value of type `type_` with payload `data`.
    pub fn new(type_: Type, data: u64) -> (v: Value)
        ensures
            v == (Value { type_, data }),
    {
        Value { type_, data }
    }

    /// A slot that holds nothing yet.
    pub fn uninitialized() -> (v: Value)
        ensures
            v == Value::unset_value(),
    {
        Value { type_: Type::invalid(), data: 0 }
    }

    /// The type tag.
    pub fn type_(&self) -> (t: Type)
        ensures
            t == self.type_,
    {
        self.type_
    }

    /// Releases the payload and leaves the slot empty.
    pub fn unset(&mut self)
        ensures
            *final(self) == Value::unset_value(),
    {
        self.type_ = Type::invalid();
        self.data = 0;
    }

    /// Moves this value into a slot that somebody else owns.
    ///
    /// Whatever the slot held is released first; afterwards the slot holds
    /// this value's payload and nothing is left behind to release it a
    /// second time. This is the only place where a payload changes owner
    /// without a copy.
    pub fn move_into(self, slot: &mut Value)
        ensures
            *final(slot) == self,
    {
        slot.unset();
        *slot = self;
    }
}

} // verus!
