//! The CEL type system: [`ValueType`] and the types it is built from.
//!
//! Every type has a mathematical model ([`TypeView`]) in which names are
//! character sequences; equality, kinds and display text are stated over it.
use vstd::prelude::*;
use crate::kind::Kind;
use crate::values::TypedValue;

pub mod view;
pub mod display;
pub mod convert;
pub mod eq;
pub mod clone;
pub mod laws;

pub use view::{
    kind_of, kinds_of, lemma_view_types, map_key_kind_of, view_map_key, view_type, view_types,
    MapKeyView, TypeView,
};
pub use display::{function_id, lemma_types_display, map_key_display, type_display, types_display};
pub use convert::{map_key_to_type, type_to_map_key, InvalidMapKeyType};
pub use eq::{types_equal, types_equal_slice};
pub use clone::duplicate_types;

verus! {

/// A CEL type.
///
/// This enum represents every type of the CEL type system: primitive types,
/// collections, Protocol Buffer types, and the advanced ones (type values,
/// optional, opaque, type parameters, functions, enums).
#[derive(Debug, Hash)]
pub enum ValueType {
    /// `null_type`.
    Null,
    /// `bool`.
    Bool,
    /// `int`: signed 64-bit integers.
    Int,
    /// `uint`: unsigned 64-bit integers.
    Uint,
    /// `double`.
    Double,
    /// `string`.
    String,
    /// `bytes`.
    Bytes,
    /// A Protocol Buffer message type.
    Struct(StructType),
    /// `google.protobuf.Duration`.
    Duration,
    /// `google.protobuf.Timestamp`.
    Timestamp,
    /// `list<T>`.
    List(ListType),
    /// `map<K, V>`.
    Mapping(MapType),
    /// The type of unknown values.
    Unknown,
    /// `type` or `type<T>`: types as values.
    Type(TypeType),
    /// The type of error values.
    Error,
    /// `google.protobuf.Any`.
    Any,
    /// `dyn`: determined at run time.
    Dyn,
    /// A user-defined opaque type.
    Opaque(OpaqueType),
    /// `optional<T>`.
    Optional(OptionalType),
    /// `google.protobuf.BoolValue`.
    BoolWrapper,
    /// `google.protobuf.Int64Value`.
    IntWrapper,
    /// `google.protobuf.UInt64Value`.
    UintWrapper,
    /// `google.protobuf.DoubleValue`.
    DoubleWrapper,
    /// `google.protobuf.StringValue`.
    StringWrapper,
    /// `google.protobuf.BytesValue`.
    BytesWrapper,
    /// A type parameter of a generic definition.
    TypeParam(TypeParamType),
    /// A function signature.
    Function(FunctionType),
    /// A Protocol Buffer enum type.
    Enum(EnumType),
}

/// A Protocol Buffer message type, named by its fully qualified name.
#[derive(Debug, Hash)]
pub struct StructType {
    /// The fully qualified name of the message type.
    pub name: String,
}

/// `list<T>`: the type of lists whose elements have type `T`.
#[derive(Debug, Hash)]
pub struct ListType {
    /// The type of the elements.
    pub element: Box<ValueType>,
}

/// `map<K, V>`: the type of maps from keys of type `K` to values of type `V`.
#[derive(Debug, Hash)]
pub struct MapType {
    /// The type of the keys.
    pub key: MapKeyType,
    /// The type of the values.
    pub value: Box<ValueType>,
}

/// `type` or `type<T>`: the type of type values.
#[derive(Debug, Hash)]
pub struct TypeType {
    /// The type parameter, where there is one.
    pub parameter: Option<Box<ValueType>>,
}

/// A user-defined opaque type, with a name and type parameters.
#[derive(Debug, Hash)]
pub struct OpaqueType {
    /// The name of the opaque type.
    pub name: String,
    /// The type parameters.
    pub parameters: Vec<ValueType>,
}

/// `optional<T>`: values of type `T` that may be absent.
#[derive(Debug, Hash)]
pub struct OptionalType {
    /// The type of the value, when present.
    pub parameter: Box<ValueType>,
}

/// A type parameter of a generic definition, such as `T`.
#[derive(Debug, Hash)]
pub struct TypeParamType {
    /// The name of the type parameter.
    pub name: String,
}

/// A function signature: argument types and a result type.
#[derive(Debug, Hash)]
pub struct FunctionType {
    /// The result type.
    pub result: Box<ValueType>,
    /// The argument types, in order.
    pub arguments: Vec<ValueType>,
}

/// A Protocol Buffer enum type, named by its fully qualified name.
#[derive(Debug, Hash)]
pub struct EnumType {
    /// The fully qualified name of the enum type.
    pub name: String,
}

/// The types that a map's keys may have.
#[derive(Debug, Hash)]
pub enum MapKeyType {
    /// `bool` keys.
    Bool,
    /// `int` keys.
    Int,
    /// `uint` keys.
    Uint,
    /// `string` keys.
    String,
    /// `dyn` keys.
    Dyn,
    /// Keys whose type is a type parameter.
    TypeParam(TypeParamType),
}

impl View for ValueType {
    type V = TypeView;

    open spec fn view(&self) -> TypeView {
        view_type(*self)
    }
}

impl View for MapKeyType {
    type V = MapKeyView;

    open spec fn view(&self) -> MapKeyView {
        view_map_key(*self)
    }
}

impl View for StructType {
    type V = Seq<char>;

    open spec fn view(&self) -> Seq<char> {
        self.name@
    }
}

impl View for TypeParamType {
    type V = Seq<char>;

    open spec fn view(&self) -> Seq<char> {
        self.name@
    }
}

impl View for EnumType {
    type V = Seq<char>;

    open spec fn view(&self) -> Seq<char> {
        self.name@
    }
}

impl View for ListType {
    type V = TypeView;

    /// The model of `list<T>` as a type.
    open spec fn view(&self) -> TypeView {
        view_type(ValueType::List(*self))
    }
}

impl View for MapType {
    type V = TypeView;

    open spec fn view(&self) -> TypeView {
        view_type(ValueType::Mapping(*self))
    }
}

impl View for TypeType {
    type V = TypeView;

    open spec fn view(&self) -> TypeView {
        view_type(ValueType::Type(*self))
    }
}

impl View for OpaqueType {
    type V = TypeView;

    open spec fn view(&self) -> TypeView {
        view_type(ValueType::Opaque(*self))
    }
}

impl View for OptionalType {
    type V = TypeView;

    open spec fn view(&self) -> TypeView {
        view_type(ValueType::Optional(*self))
    }
}

impl View for FunctionType {
    type V = TypeView;

    open spec fn view(&self) -> TypeView {
        view_type(ValueType::Function(*self))
    }
}

impl ValueType {
    /// Returns the kind of this type.
    ///
    /// Opaque and optional types are both of kind [`Kind::Opaque`].
    pub fn kind(&self) -> (r: Kind)
        ensures
            r == kind_of(self@),
    {
        match self {
            ValueType::Null => Kind::Null,
            ValueType::Bool => Kind::Bool,
            ValueType::Int => Kind::Int,
            ValueType::Uint => Kind::Uint,
            ValueType::Double => Kind::Double,
            ValueType::String => Kind::String,
            ValueType::Bytes => Kind::Bytes,
            ValueType::Struct(_) => Kind::Struct,
            ValueType::Duration => Kind::Duration,
            ValueType::Timestamp => Kind::Timestamp,
            ValueType::List(_) => Kind::List,
            ValueType::Mapping(_) => Kind::Mapping,
            ValueType::Unknown => Kind::Unknown,
            ValueType::Type(_) => Kind::Type,
            ValueType::Error => Kind::Error,
            ValueType::Any => Kind::Any,
            ValueType::Dyn => Kind::Dyn,
            ValueType::Opaque(_) | ValueType::Optional(_) => Kind::Opaque,
            ValueType::BoolWrapper => Kind::BoolWrapper,
            ValueType::IntWrapper => Kind::IntWrapper,
            ValueType::UintWrapper => Kind::UintWrapper,
            ValueType::DoubleWrapper => Kind::DoubleWrapper,
            ValueType::StringWrapper => Kind::StringWrapper,
            ValueType::BytesWrapper => Kind::BytesWrapper,
            ValueType::TypeParam(_) => Kind::TypeParam,
            ValueType::Function(_) => Kind::Function,
            ValueType::Enum(_) => Kind::Enum,
        }
    }
}

impl ValueType {
    /// Returns whether this is the CEL type of the Rust type `T`.
    pub fn is<T: TypedValue>(&self) -> (r: bool)
        ensures
            r == (T::spec_value_type() == self@),
    {
        let t = T::value_type();
        t.equals(self)
    }
}

impl StructType {
    /// Creates a message type with the given fully qualified name.
    pub fn new(name: &str) -> (r: Self)
        ensures
            r.name@ == name@,
    {
        StructType { name: name.to_string() }
    }
}

impl ListType {
    /// Creates `list<element>`.
    pub fn new(element: ValueType) -> (r: Self)
        ensures
            *r.element == element,
    {
        ListType { element: Box::new(element) }
    }

    /// Returns the type of the elements.
    pub fn element(&self) -> (r: &ValueType)
        ensures
            *r == *self.element,
    {
        &self.element
    }
}

impl MapType {
    /// Creates `map<key, value>`.
    pub fn new(key: MapKeyType, value: ValueType) -> (r: Self)
        ensures
            r.key == key,
            *r.value == value,
    {
        MapType { key, value: Box::new(value) }
    }

    /// Returns the type of the keys.
    pub fn key(&self) -> (r: &MapKeyType)
        ensures
            *r == self.key,
    {
        &self.key
    }

    /// Returns the type of the values.
    pub fn value(&self) -> (r: &ValueType)
        ensures
            *r == *self.value,
    {
        &self.value
    }
}

impl TypeType {
    /// Creates `type` (no parameter) or `type<parameter>`.
    pub fn new(parameter: Option<ValueType>) -> (r: Self)
        ensures
            match parameter {
                Some(p) => r.parameter == Some(Box::new(p)),
                None => r.parameter.is_none(),
            },
    {
        match parameter {
            Some(p) => TypeType { parameter: Some(Box::new(p)) },
            None => TypeType { parameter: None },
        }
    }

    /// Returns the type parameter, where there is one.
    pub fn parameter(&self) -> (r: Option<&ValueType>)
        ensures
            match self.parameter {
                Some(p) => r == Some(&*p),
                None => r.is_none(),
            },
    {
        match &self.parameter {
            Some(p) => Some(&**p),
            None => None,
        }
    }
}

impl OpaqueType {
    /// Creates an opaque type with the given name and type parameters.
    pub fn new(name: &str, parameters: Vec<ValueType>) -> (r: Self)
        ensures
            r.name@ == name@,
            r.parameters == parameters,
    {
        OpaqueType { name: name.to_string(), parameters }
    }

    /// Returns the name.
    pub fn name(&self) -> (r: &str)
        ensures
            r@ == self.name@,
    {
        self.name.as_str()
    }

    /// Returns the type parameters.
    pub fn parameters(&self) -> (r: &[ValueType])
        ensures
            r@ == self.parameters@,
    {
        self.parameters.as_slice()
    }
}

impl OptionalType {
    /// Creates `optional<parameter>`.
    pub fn new(parameter: ValueType) -> (r: Self)
        ensures
            *r.parameter == parameter,
    {
        OptionalType { parameter: Box::new(parameter) }
    }

    /// Returns the type of the value, when present.
    pub fn parameter(&self) -> (r: &ValueType)
        ensures
            *r == *self.parameter,
    {
        &self.parameter
    }
}

impl TypeParamType {
    /// Creates a type parameter with the given name.
    pub fn new(name: &str) -> (r: Self)
        ensures
            r.name@ == name@,
    {
        TypeParamType { name: name.to_string() }
    }

    /// Returns the name.
    pub fn name(&self) -> (r: &str)
        ensures
            r@ == self.name@,
    {
        self.name.as_str()
    }
}

impl FunctionType {
    /// Creates the signature `(arguments) -> result`.
    pub fn new(result: ValueType, arguments: Vec<ValueType>) -> (r: Self)
        ensures
            *r.result == result,
            r.arguments == arguments,
    {
        FunctionType { result: Box::new(result), arguments }
    }

    /// Returns the result type.
    pub fn result(&self) -> (r: &ValueType)
        ensures
            *r == *self.result,
    {
        &self.result
    }

    /// Returns the argument types, in order.
    pub fn arguments(&self) -> (r: &[ValueType])
        ensures
            r@ == self.arguments@,
    {
        self.arguments.as_slice()
    }
}

impl EnumType {
    /// Creates an enum type with the given fully qualified name.
    pub fn new(name: &str) -> (r: Self)
        ensures
            r.name@ == name@,
    {
        EnumType { name: name.to_string() }
    }

    /// Returns the name.
    pub fn name(&self) -> (r: &str)
        ensures
            r@ == self.name@,
    {
        self.name.as_str()
    }
}

impl MapKeyType {
    /// Returns the kind of this key type.
    pub fn kind(&self) -> (r: Kind)
        ensures
            r == map_key_kind_of(self@),
    {
        match self {
            MapKeyType::Bool => Kind::Bool,
            MapKeyType::Int => Kind::Int,
            MapKeyType::Uint => Kind::Uint,
            MapKeyType::String => Kind::String,
            MapKeyType::Dyn => Kind::Dyn,
            MapKeyType::TypeParam(_) => Kind::TypeParam,
        }
    }
}

} // verus!
