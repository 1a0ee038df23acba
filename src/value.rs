use vstd::prelude::*;

use crate::handle::RawRef;

verus! {

/// A value passed to a managed method. Floating-point values travel as their
/// IEEE 754 bit patterns. An object value borrows the durable reference of an
/// object for the duration of the call.
#[derive(Clone, Copy, Debug, PartialEq, Eq, Structural)]
pub enum Value {
    Void,
    Bool(bool),
    Byte(i8),
    Short(i16),
    Int(i32),
    Long(i64),
    Float(u32),
    Double(u64),
    Object(RawRef),
}

/// One slot of the native argument array, named after the member of the
/// native union that it fills.
#[derive(Clone, Copy, Debug, PartialEq, Eq, Structural)]
pub enum ArgSlot {
    Z(u8),
    B(i8),
    S(i16),
    I(i32),
    J(i64),
    F(u32),
    D(u64),
    L(RawRef),
}

/// The return representation that selects one of the typed call entry points.
#[derive(Clone, Copy, Debug, PartialEq, Eq, Structural)]
pub enum ReturnKind {
    Void,
    Bool,
    Byte,
    Short,
    Int,
    Long,
    Float,
    Double,
    Object,
}

/// What a typed call entry point returned, before any exception check.
#[derive(Clone, Copy, Debug, PartialEq, Eq, Structural)]
pub enum RawReturn {
    Void,
    Bool(u8),
    Byte(i8),
    Short(i16),
    Int(i32),
    Long(i64),
    Float(u32),
    Double(u64),
    Object(RawRef),
}

pub open spec fn slot_of(v: Value) -> ArgSlot {
    match v {
        Value::Void => ArgSlot::L(RawRef { addr: 0 }),
        Value::Bool(b) => ArgSlot::Z(if b { 1u8 } else { 0u8 }),
        Value::Byte(x) => ArgSlot::B(x),
        Value::Short(x) => ArgSlot::S(x),
        Value::Int(x) => ArgSlot::I(x),
        Value::Long(x) => ArgSlot::J(x),
        Value::Float(x) => ArgSlot::F(x),
        Value::Double(x) => ArgSlot::D(x),
        Value::Object(r) => ArgSlot::L(r),
    }
}

/// The native slot for one value; an absent value is a null reference.
pub fn marshal_value(v: Value) -> (r: ArgSlot)
    ensures
        r == slot_of(v),
{
    match v {
        Value::Void => ArgSlot::L(RawRef::null()),
        Value::Bool(b) => ArgSlot::Z(if b { 1u8 } else { 0u8 }),
        Value::Byte(x) => ArgSlot::B(x),
        Value::Short(x) => ArgSlot::S(x),
        Value::Int(x) => ArgSlot::I(x),
        Value::Long(x) => ArgSlot::J(x),
        Value::Float(x) => ArgSlot::F(x),
        Value::Double(x) => ArgSlot::D(x),
        Value::Object(r) => ArgSlot::L(r),
    }
}

/// The native argument array for a call, in the order of the arguments.
pub fn marshal_arguments(arguments: &[Value]) -> (r: Vec<ArgSlot>)
    ensures
        r@.len() == arguments@.len(),
        forall|i: int| 0 <= i < arguments@.len() ==> r@[i] == slot_of(#[trigger] arguments@[i]),
{
    let mut r: Vec<ArgSlot> = Vec::new();
    let mut i: usize = 0;
    while i < arguments.len()
        invariant
            i <= arguments@.len(),
            r@.len() == i,
            forall|j: int| 0 <= j < i ==> r@[j] == slot_of(#[trigger] arguments@[j]),
        decreases arguments@.len() - i,
    {
        r.push(marshal_value(arguments[i]));
        i = i + 1;
    }
    r
}

} // verus!
