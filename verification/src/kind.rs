//! The basic categories of CEL types and values.
use vstd::prelude::*;

verus! {

/// The basic category of a CEL type or value.
///
/// Every [`ValueType`](crate::types::ValueType) belongs to exactly one kind;
/// function overloads are grouped by the kinds of their arguments.
#[derive(Clone, Copy, Debug, PartialEq, Eq, Hash, Structural)]
pub enum Kind {
    /// The kind of `null`.
    Null,
    /// The kind of error values.
    Error,
    /// Boolean.
    Bool,
    /// Signed 64-bit integer.
    Int,
    /// Unsigned 64-bit integer.
    Uint,
    /// Double-precision floating point.
    Double,
    /// UTF-8 string.
    String,
    /// Byte string.
    Bytes,
    /// Protocol Buffer message.
    Struct,
    /// `google.protobuf.Duration`.
    Duration,
    /// `google.protobuf.Timestamp`.
    Timestamp,
    /// List.
    List,
    /// Map.
    Mapping,
    /// Unknown values.
    Unknown,
    /// Type values.
    Type,
    /// Opaque values, optional values among them.
    Opaque,
    /// `google.protobuf.BoolValue`.
    BoolWrapper,
    /// `google.protobuf.Int64Value`.
    IntWrapper,
    /// `google.protobuf.UInt64Value`.
    UintWrapper,
    /// `google.protobuf.DoubleValue`.
    DoubleWrapper,
    /// `google.protobuf.StringValue`.
    StringWrapper,
    /// `google.protobuf.BytesValue`.
    BytesWrapper,
    /// `google.protobuf.Any`.
    Any,
    /// Dynamic.
    Dyn,
    /// Type parameter.
    TypeParam,
    /// Function.
    Function,
    /// Protocol Buffer enum.
    Enum,
}

/// The text by which a kind is displayed.
pub open spec fn kind_name(k: Kind) -> Seq<char> {
    match k {
        Kind::Null => "null_type"@,
        Kind::Error => "*error*"@,
        Kind::Bool => "bool"@,
        Kind::Int => "int"@,
        Kind::Uint => "uint"@,
        Kind::Double => "double"@,
        Kind::String => "string"@,
        Kind::Bytes => "bytes"@,
        Kind::Struct => "struct"@,
        Kind::Duration => "duration"@,
        Kind::Timestamp => "timestamp"@,
        Kind::List => "list"@,
        Kind::Mapping => "map"@,
        Kind::Unknown => "*unknown*"@,
        Kind::Type => "type"@,
        Kind::Opaque => "*opaque*"@,
        Kind::BoolWrapper => "google.protobuf.BoolValue"@,
        Kind::IntWrapper => "google.protobuf.Int64Value"@,
        Kind::UintWrapper => "google.protobuf.UInt64Value"@,
        Kind::DoubleWrapper => "google.protobuf.DoubleValue"@,
        Kind::StringWrapper => "google.protobuf.StringValue"@,
        Kind::BytesWrapper => "google.protobuf.BytesValue"@,
        Kind::Any => "any"@,
        Kind::Dyn => "dyn"@,
        Kind::TypeParam => "type_param"@,
        Kind::Function => "function"@,
        Kind::Enum => "enum"@,
    }
}

impl Kind {
    /// Returns the text by which this kind is displayed.
    pub fn name(&self) -> (r: &'static str)
        ensures
            r@ == kind_name(*self),
    {
        match self {
            Kind::Null => "null_type",
            Kind::Error => "*error*",
            Kind::Bool => "bool",
            Kind::Int => "int",
            Kind::Uint => "uint",
            Kind::Double => "double",
            Kind::String => "string",
            Kind::Bytes => "bytes",
            Kind::Struct => "struct",
            Kind::Duration => "duration",
            Kind::Timestamp => "timestamp",
            Kind::List => "list",
            Kind::Mapping => "map",
            Kind::Unknown => "*unknown*",
            Kind::Type => "type",
            Kind::Opaque => "*opaque*",
            Kind::BoolWrapper => "google.protobuf.BoolValue",
            Kind::IntWrapper => "google.protobuf.Int64Value",
            Kind::UintWrapper => "google.protobuf.UInt64Value",
            Kind::DoubleWrapper => "google.protobuf.DoubleValue",
            Kind::StringWrapper => "google.protobuf.StringValue",
            Kind::BytesWrapper => "google.protobuf.BytesValue",
            Kind::Any => "any",
            Kind::Dyn => "dyn",
            Kind::TypeParam => "type_param",
            Kind::Function => "function",
            Kind::Enum => "enum",
        }
    }

    /// Returns the display text of this kind as an owned string.
    pub fn to_string(&self) -> (r: String)
        ensures
            r@ == kind_name(*self),
    {
        self.name().to_string()
    }
}

} // verus!
