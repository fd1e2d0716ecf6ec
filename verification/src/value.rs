//! Conversion between untyped wire values and the closed set of typed values.
//!
//! This layer knows nothing of entity kinds or remote names. It translates
//! the shape of one value at a time and is shared by every column.

use vstd::prelude::*;
use crate::error::Error;

verus! {

/// The declared type of a remote field's result.
#[derive(Clone, Copy, Debug, PartialEq, Eq, Structural)]
pub enum ResultType {
    Text,
    Int64,
    Float64,
    Bool,
    Bytes,
}

/// An untyped value as it travels on the wire.
///
/// A double is held as its IEEE 754 bit pattern, which keeps every value,
/// including each NaN payload, exactly as it was received.
#[derive(Debug, PartialEq)]
pub enum Value {
    /// A 32-bit signed integer.
    Int32(i32),
    /// A 64-bit signed integer.
    Int64(i64),
    /// The bit pattern of a double-precision number.
    Float64(u64),
    Bool(bool),
    Text(String),
    /// Raw binary data.
    Bytes(Vec<u8>),
    /// An ordered list of values.
    List(Vec<Value>),
    /// A value of a shape that no field of the remote interface uses
    /// (a structure, a date, the empty value).
    Other,
}

/// A value of one of the five supported semantic types.
#[derive(Clone, Debug, PartialEq)]
pub enum TypedValue {
    Text(String),
    Int64(i64),
    /// The bit pattern of a double-precision number.
    Float64(u64),
    Bool(bool),
    Bytes(Vec<u8>),
}

/// The mathematical content of a [`TypedValue`].
pub ghost enum Scalar {
    Text(Seq<char>),
    Int64(i64),
    Float64(u64),
    Bool(bool),
    Bytes(Seq<u8>),
}

/// The mathematical content of a [`Value`].
pub ghost enum Wire {
    Int32(i32),
    Int64(i64),
    Float64(u64),
    Bool(bool),
    Text(Seq<char>),
    Bytes(Seq<u8>),
    List(Seq<Wire>),
    Other,
}

impl ResultType {
    /// The word used for this type in error descriptions.
    pub open spec fn name(self) -> Seq<char> {
        match self {
            ResultType::Text => "text"@,
            ResultType::Int64 => "integer"@,
            ResultType::Float64 => "double"@,
            ResultType::Bool => "boolean"@,
            ResultType::Bytes => "binary data"@,
        }
    }

    /// The word used for this type in error descriptions.
    pub fn describe(self) -> (word: &'static str)
        ensures
            word@ == self.name(),
    {
        match self {
            ResultType::Text => "text",
            ResultType::Int64 => "integer",
            ResultType::Float64 => "double",
            ResultType::Bool => "boolean",
            ResultType::Bytes => "binary data",
        }
    }
}

impl Scalar {
    /// The semantic type that this value belongs to.
    pub open spec fn result_type(self) -> ResultType {
        match self {
            Scalar::Text(_) => ResultType::Text,
            Scalar::Int64(_) => ResultType::Int64,
            Scalar::Float64(_) => ResultType::Float64,
            Scalar::Bool(_) => ResultType::Bool,
            Scalar::Bytes(_) => ResultType::Bytes,
        }
    }

    /// The wire form of this value.
    pub open spec fn encode(self) -> Wire {
        match self {
            Scalar::Text(s) => Wire::Text(s),
            Scalar::Int64(i) => Wire::Int64(i),
            Scalar::Float64(bits) => Wire::Float64(bits),
            Scalar::Bool(b) => Wire::Bool(b),
            Scalar::Bytes(data) => Wire::Bytes(data),
        }
    }
}

impl Wire {
    /// The typed value that this wire value carries, if it carries one.
    ///
    /// Both integer widths of the wire carry a 64-bit integer; a list and an
    /// unsupported shape carry nothing.
    pub open spec fn scalar(self) -> Option<Scalar> {
        match self {
            Wire::Int32(i) => Some(Scalar::Int64(i as i64)),
            Wire::Int64(i) => Some(Scalar::Int64(i)),
            Wire::Float64(bits) => Some(Scalar::Float64(bits)),
            Wire::Bool(b) => Some(Scalar::Bool(b)),
            Wire::Text(s) => Some(Scalar::Text(s)),
            Wire::Bytes(data) => Some(Scalar::Bytes(data)),
            Wire::List(_) => None,
            Wire::Other => None,
        }
    }

    /// The semantic type that this value's wire tag stands for, if any.
    pub open spec fn tag(self) -> Option<ResultType> {
        match self.scalar() {
            Some(s) => Some(s.result_type()),
            None => None,
        }
    }

    /// The word used for this value's shape in error descriptions.
    pub open spec fn shape(self) -> Seq<char> {
        match self.tag() {
            Some(t) => t.name(),
            None => match self {
                Wire::List(_) => "list"@,
                _ => "unsupported value"@,
            },
        }
    }

    /// The result of reading this value as `expected`: the value it carries
    /// when its tag is `expected`, nothing otherwise.
    pub open spec fn typed_as(self, expected: ResultType) -> Option<Scalar> {
        if self.tag() == Some(expected) {
            self.scalar()
        } else {
            None
        }
    }

    /// The elements of a list; a value that is no list has none.
    pub open spec fn items(self) -> Seq<Wire> {
        match self {
            Wire::List(items) => items,
            _ => Seq::empty(),
        }
    }
}

/// The description carried by the error for a value of shape `found` where
/// a value of type `expected` was declared.
pub open spec fn mismatch_message(expected: ResultType, found: Wire) -> Seq<char> {
    "expected "@ + expected.name() + ", got "@ + found.shape()
}

/// The description carried by the error for a value of shape `found` where
/// a list was required.
pub open spec fn not_a_list_message(found: Wire) -> Seq<char> {
    "expected list, got "@ + found.shape()
}

/// The mathematical contents of a sequence of wire values, one by one.
pub open spec fn wires(values: Seq<Value>) -> Seq<Wire> {
    Seq::new(values.len(), |i: int| values[i]@)
}

/// The mathematical contents of a sequence of typed values, one by one.
pub open spec fn scalars(values: Seq<TypedValue>) -> Seq<Scalar> {
    Seq::new(values.len(), |i: int| values[i]@)
}

impl View for TypedValue {
    type V = Scalar;

    open spec fn view(&self) -> Scalar {
        match *self {
            TypedValue::Text(s) => Scalar::Text(s@),
            TypedValue::Int64(i) => Scalar::Int64(i),
            TypedValue::Float64(bits) => Scalar::Float64(bits),
            TypedValue::Bool(b) => Scalar::Bool(b),
            TypedValue::Bytes(data) => Scalar::Bytes(data@),
        }
    }
}

/// The mathematical content of `value`: its own, and that of every element
/// of a list, to any depth.
pub open spec fn wire_of(value: Value) -> Wire
    decreases value,
{
    match value {
        Value::Int32(i) => Wire::Int32(i),
        Value::Int64(i) => Wire::Int64(i),
        Value::Float64(bits) => Wire::Float64(bits),
        Value::Bool(b) => Wire::Bool(b),
        Value::Text(s) => Wire::Text(s@),
        Value::Bytes(data) => Wire::Bytes(data@),
        Value::List(items) => Wire::List(
            Seq::new(
                items@.len(),
                |i: int|
                    if 0 <= i < items@.len() {
                        wire_of(items@[i])
                    } else {
                        Wire::Other
                    },
            ),
        ),
        Value::Other => Wire::Other,
    }
}

impl View for Value {
    type V = Wire;

    open spec fn view(&self) -> Wire {
        wire_of(*self)
    }
}

impl TypedValue {
    /// The semantic type of this value.
    pub fn result_type(&self) -> (t: ResultType)
        ensures
            t == self@.result_type(),
    {
        match self {
            TypedValue::Text(_) => ResultType::Text,
            TypedValue::Int64(_) => ResultType::Int64,
            TypedValue::Float64(_) => ResultType::Float64,
            TypedValue::Bool(_) => ResultType::Bool,
            TypedValue::Bytes(_) => ResultType::Bytes,
        }
    }
}

impl Value {
    /// The word used for this value's shape in error descriptions.
    pub fn describe(&self) -> (word: &'static str)
        ensures
            word@ == self@.shape(),
    {
        match self {
            Value::Int32(_) => ResultType::Int64.describe(),
            Value::Int64(_) => ResultType::Int64.describe(),
            Value::Float64(_) => ResultType::Float64.describe(),
            Value::Bool(_) => ResultType::Bool.describe(),
            Value::Text(_) => ResultType::Text.describe(),
            Value::Bytes(_) => ResultType::Bytes.describe(),
            Value::List(_) => "list",
            Value::Other => "unsupported value",
        }
    }
}

/// Reads one wire value as the declared type.
///
/// The conversion is exact: it succeeds precisely when the value's wire tag
/// is `expected`, and then returns what the value carries. Any other value
/// is refused with a description of the expected and the actual shape.
pub fn to_typed(value: &Value, expected: ResultType) -> (res: Result<TypedValue, Error>)
    ensures
        match value@.typed_as(expected) {
            Some(s) => res matches Ok(t) && t@ == s,
            None => res matches Err(Error::UnexpectedStructure(msg)) && msg@ == mismatch_message(
                expected,
                value@,
            ),
        },
        value@.tag() != Some(expected) ==> res is Err,
{
    match (value, expected) {
        (Value::Int32(i), ResultType::Int64) => Ok(TypedValue::Int64(*i as i64)),
        (Value::Int64(i), ResultType::Int64) => Ok(TypedValue::Int64(*i)),
        (Value::Float64(bits), ResultType::Float64) => Ok(TypedValue::Float64(*bits)),
        (Value::Bool(b), ResultType::Bool) => Ok(TypedValue::Bool(*b)),
        (Value::Text(s), ResultType::Text) => Ok(TypedValue::Text(s.clone())),
        (Value::Bytes(data), ResultType::Bytes) => Ok(TypedValue::Bytes(data.clone())),
        _ => Err(Error::UnexpectedStructure(mismatch(expected, value))),
    }
}

/// The elements of `value` if it is a list; the refusal of any other value,
/// with a description of its shape.
pub fn list_items(value: &Value) -> (res: Result<&Vec<Value>, Error>)
    ensures
        match res {
            Ok(items) => value@ is List && wires(items@) == value@.items(),
            Err(e) => {
                &&& !(value@ is List)
                &&& e matches Error::UnexpectedStructure(msg)
                &&& msg@ == not_a_list_message(value@)
            },
        },
{
    match value {
        Value::List(items) => {
            assert(wires(items@) =~= value@.items());
            Ok(items)
        },
        _ => Err(
            Error::UnexpectedStructure(String::from_str("expected list, got ").concat(value.describe())),
        ),
    }
}

/// Builds the description of a value found where `expected` was declared.
fn mismatch(expected: ResultType, found: &Value) -> (msg: String)
    ensures
        msg@ == mismatch_message(expected, found@),
{
    String::from_str("expected ").concat(expected.describe()).concat(", got ").concat(
        found.describe(),
    )
}

/// Encodes a typed value for the wire, as a call argument.
pub fn to_untyped(value: TypedValue) -> (res: Value)
    ensures
        res@ == value@.encode(),
{
    match value {
        TypedValue::Text(s) => Value::Text(s),
        TypedValue::Int64(i) => Value::Int64(i),
        TypedValue::Float64(bits) => Value::Float64(bits),
        TypedValue::Bool(b) => Value::Bool(b),
        TypedValue::Bytes(data) => Value::Bytes(data),
    }
}

/// Encoding a typed value and reading it back as its own type returns it
/// unchanged: the conversion loses nothing in either direction.
pub proof fn lemma_encode_then_read(s: Scalar)
    ensures
        s.encode().tag() == Some(s.result_type()),
        s.encode().typed_as(s.result_type()) == Some(s),
{
}

/// A value is read successfully as at most one type: the one its wire tag
/// stands for.
pub proof fn lemma_read_is_by_tag(w: Wire, expected: ResultType)
    ensures
        w.typed_as(expected) is Some <==> w.tag() == Some(expected),
        w.typed_as(expected) matches Some(s) ==> s.result_type() == expected,
{
}

} // verus!
