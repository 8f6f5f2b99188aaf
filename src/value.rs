use vstd::prelude::*;

verus! {

/// A parsed wire value, as a decoder sees one field.
///
/// Non-negative integers are `UInt`; `Int` holds signed integers. A number
/// that is not an integer is kept as the decimal text it was written as.
#[derive(Debug, PartialEq, Eq)]
pub enum RawValue {
    Null,
    Bool(bool),
    UInt(u64),
    Int(i64),
    Float(String),
    Char(char),
    Str(String),
    Array(Vec<RawValue>),
    Object(Vec<(String, RawValue)>),
}

/// The kind of a wire value, used to report what a decoder was given.
#[derive(PartialEq, Eq, Structural, Clone, Copy, Debug)]
pub enum ValueKind {
    Null,
    Bool,
    Integer,
    Float,
    Char,
    Text,
    Array,
    Object,
}

/// The wire shapes that a decoder accepts, named in its errors.
#[derive(PartialEq, Eq, Structural, Clone, Copy, Debug)]
pub enum Expected {
    /// A boolean literal, or an unsigned integer 0 or 1.
    BoolOrBit,
    /// A boolean, an integer, a character or a string.
    Scalar,
    /// An integer that fits a signed 64-bit value.
    Integer,
    /// A boolean literal or an integer.
    BoolOrInteger,
    /// A string or a number.
    StringOrInteger,
    /// An object of named fields.
    Object,
    /// An unsigned integer that fits 32 bits.
    Unsigned32,
    /// A list of unsigned integers.
    UnsignedList,
    /// A string.
    Text,
}

/// Why a field could not be decoded.
#[derive(PartialEq, Eq, Structural, Clone, Copy, Debug)]
pub enum DecodeError {
    /// An integer given for a boolean that is neither 0 nor 1.
    OutOfRangeBoolean(u64),
    /// A value whose kind the decoder does not accept.
    UnsupportedShape(Expected, ValueKind),
    /// A category field that is neither a string nor a list.
    MalformedCategoryRoot(ValueKind),
    /// An object without a field that it must have.
    MissingField,
}

pub open spec fn kind_of(v: RawValue) -> ValueKind {
    match v {
        RawValue::Null => ValueKind::Null,
        RawValue::Bool(_) => ValueKind::Bool,
        RawValue::UInt(_) => ValueKind::Integer,
        RawValue::Int(_) => ValueKind::Integer,
        RawValue::Float(_) => ValueKind::Float,
        RawValue::Char(_) => ValueKind::Char,
        RawValue::Str(_) => ValueKind::Text,
        RawValue::Array(_) => ValueKind::Array,
        RawValue::Object(_) => ValueKind::Object,
    }
}

impl RawValue {
    /// The kind of this value.
    pub fn kind(&self) -> (r: ValueKind)
        ensures
            r == kind_of(*self),
    {
        match self {
            RawValue::Null => ValueKind::Null,
            RawValue::Bool(_) => ValueKind::Bool,
            RawValue::UInt(_) => ValueKind::Integer,
            RawValue::Int(_) => ValueKind::Integer,
            RawValue::Float(_) => ValueKind::Float,
            RawValue::Char(_) => ValueKind::Char,
            RawValue::Str(_) => ValueKind::Text,
            RawValue::Array(_) => ValueKind::Array,
            RawValue::Object(_) => ValueKind::Object,
        }
    }
}

impl Expected {
    /// A description of the accepted shapes, for people.
    pub fn describe(&self) -> (r: &'static str)
        ensures
            match *self {
                Expected::BoolOrBit => r@ == "a bool value or integer 0 or 1"@,
                Expected::Scalar => r@ == "a bool, an integer, a character or a string"@,
                Expected::Integer => r@ == "an integer"@,
                Expected::BoolOrInteger => r@ == "a boolean or an integer"@,
                Expected::StringOrInteger => r@ == "a string or a number"@,
                Expected::Object => r@ == "an object"@,
                Expected::Unsigned32 => r@ == "an unsigned 32-bit integer"@,
                Expected::UnsignedList => r@ == "a list of unsigned integers"@,
                Expected::Text => r@ == "a string"@,
            },
    {
        match self {
            Expected::BoolOrBit => "a bool value or integer 0 or 1",
            Expected::Scalar => "a bool, an integer, a character or a string",
            Expected::Integer => "an integer",
            Expected::BoolOrInteger => "a boolean or an integer",
            Expected::StringOrInteger => "a string or a number",
            Expected::Object => "an object",
            Expected::Unsigned32 => "an unsigned 32-bit integer",
            Expected::UnsignedList => "a list of unsigned integers",
            Expected::Text => "a string",
        }
    }
}

} // verus!
