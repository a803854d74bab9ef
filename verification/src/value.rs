use vstd::prelude::*;
use crate::tag::TypeTag;

verus! {

/// A native value of one of the supported scalar types.
#[derive(Clone, Debug, PartialEq, Eq)]
pub enum NativeValue {
    Bool(bool),
    Int2(i16),
    Int4(i32),
    Int8(i64),
    Oid(u32),
    Text(String),
}

/// What a [`NativeValue`] is, mathematically: the same scalar with text as a
/// sequence of characters.
pub ghost enum Value {
    Bool(bool),
    Int2(i16),
    Int4(i32),
    Int8(i64),
    Oid(u32),
    Text(Seq<char>),
}

impl Value {
    /// The one tag under which a value of this kind is stored.
    pub open spec fn tag(self) -> TypeTag {
        match self {
            Value::Bool(_) => TypeTag::Bool,
            Value::Int2(_) => TypeTag::Int2,
            Value::Int4(_) => TypeTag::Int4,
            Value::Int8(_) => TypeTag::Int8,
            Value::Oid(_) => TypeTag::Oid,
            Value::Text(_) => TypeTag::Text,
        }
    }
}

impl View for NativeValue {
    type V = Value;

    open spec fn view(&self) -> Value {
        match self {
            NativeValue::Bool(b) => Value::Bool(*b),
            NativeValue::Int2(x) => Value::Int2(*x),
            NativeValue::Int4(x) => Value::Int4(*x),
            NativeValue::Int8(x) => Value::Int8(*x),
            NativeValue::Oid(x) => Value::Oid(*x),
            NativeValue::Text(s) => Value::Text(s@),
        }
    }
}

impl NativeValue {
    /// The one tag under which this value is stored.
    pub fn tag(&self) -> (tag: TypeTag)
        ensures
            tag == self@.tag(),
    {
        match self {
            NativeValue::Bool(_) => TypeTag::Bool,
            NativeValue::Int2(_) => TypeTag::Int2,
            NativeValue::Int4(_) => TypeTag::Int4,
            NativeValue::Int8(_) => TypeTag::Int8,
            NativeValue::Oid(_) => TypeTag::Oid,
            NativeValue::Text(_) => TypeTag::Text,
        }
    }
}

} // verus!
