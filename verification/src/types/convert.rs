//! Conversions between the type structures, and between map key types and types.
use vstd::prelude::*;
use vstd::std_specs::convert::{FromSpecImpl, TryFromSpecImpl};
use super::display::type_display;
use super::{
    EnumType, FunctionType, ListType, MapKeyType, MapType, OpaqueType, OptionalType, StructType,
    TypeParamType, TypeType, ValueType,
};

verus! {

impl From<StructType> for ValueType {
    fn from(value: StructType) -> (r: ValueType) {
        ValueType::Struct(value)
    }
}

impl FromSpecImpl<StructType> for ValueType {
    open spec fn obeys_from_spec() -> bool {
        true
    }

    open spec fn from_spec(v: StructType) -> ValueType {
        ValueType::Struct(v)
    }
}

impl From<ListType> for ValueType {
    fn from(value: ListType) -> (r: ValueType) {
        ValueType::List(value)
    }
}

impl FromSpecImpl<ListType> for ValueType {
    open spec fn obeys_from_spec() -> bool {
        true
    }

    open spec fn from_spec(v: ListType) -> ValueType {
        ValueType::List(v)
    }
}

impl From<MapType> for ValueType {
    fn from(value: MapType) -> (r: ValueType) {
        ValueType::Mapping(value)
    }
}

impl FromSpecImpl<MapType> for ValueType {
    open spec fn obeys_from_spec() -> bool {
        true
    }

    open spec fn from_spec(v: MapType) -> ValueType {
        ValueType::Mapping(v)
    }
}

impl From<TypeType> for ValueType {
    fn from(value: TypeType) -> (r: ValueType) {
        ValueType::Type(value)
    }
}

impl FromSpecImpl<TypeType> for ValueType {
    open spec fn obeys_from_spec() -> bool {
        true
    }

    open spec fn from_spec(v: TypeType) -> ValueType {
        ValueType::Type(v)
    }
}

impl From<OpaqueType> for ValueType {
    fn from(value: OpaqueType) -> (r: ValueType) {
        ValueType::Opaque(value)
    }
}

impl FromSpecImpl<OpaqueType> for ValueType {
    open spec fn obeys_from_spec() -> bool {
        true
    }

    open spec fn from_spec(v: OpaqueType) -> ValueType {
        ValueType::Opaque(v)
    }
}

impl From<OptionalType> for ValueType {
    fn from(value: OptionalType) -> (r: ValueType) {
        ValueType::Optional(value)
    }
}

impl FromSpecImpl<OptionalType> for ValueType {
    open spec fn obeys_from_spec() -> bool {
        true
    }

    open spec fn from_spec(v: OptionalType) -> ValueType {
        ValueType::Optional(v)
    }
}

impl From<TypeParamType> for ValueType {
    fn from(value: TypeParamType) -> (r: ValueType) {
        ValueType::TypeParam(value)
    }
}

impl FromSpecImpl<TypeParamType> for ValueType {
    open spec fn obeys_from_spec() -> bool {
        true
    }

    open spec fn from_spec(v: TypeParamType) -> ValueType {
        ValueType::TypeParam(v)
    }
}

impl From<FunctionType> for ValueType {
    fn from(value: FunctionType) -> (r: ValueType) {
        ValueType::Function(value)
    }
}

impl FromSpecImpl<FunctionType> for ValueType {
    open spec fn obeys_from_spec() -> bool {
        true
    }

    open spec fn from_spec(v: FunctionType) -> ValueType {
        ValueType::Function(v)
    }
}

impl From<EnumType> for ValueType {
    fn from(value: EnumType) -> (r: ValueType) {
        ValueType::Enum(value)
    }
}

impl FromSpecImpl<EnumType> for ValueType {
    open spec fn obeys_from_spec() -> bool {
        true
    }

    open spec fn from_spec(v: EnumType) -> ValueType {
        ValueType::Enum(v)
    }
}

/// The error of a conversion of a type that may not key a map into a map key
/// type; it holds the type that was refused.
#[derive(Debug)]
pub struct InvalidMapKeyType(pub ValueType);

impl InvalidMapKeyType {
    /// Creates the error for the refused type `ty`.
    pub fn new(ty: ValueType) -> (r: Self)
        ensures
            r.0 == ty,
    {
        InvalidMapKeyType(ty)
    }

    /// Returns the error text: `invalid key type: ` followed by the display
    /// text of the refused type.
    pub fn to_string(&self) -> (r: String)
        ensures
            r@ == "invalid key type: "@ + type_display(self.0@),
    {
        let mut s = String::from_str("invalid key type: ");
        let t = self.0.to_string();
        s.append(t.as_str());
        s
    }
}

impl Clone for InvalidMapKeyType {
    fn clone(&self) -> (r: Self)
        ensures
            r.0@ == self.0@,
    {
        InvalidMapKeyType(self.0.duplicate())
    }
}

/// The type that a map key type stands for.
pub open spec fn map_key_to_type(key: MapKeyType) -> ValueType {
    match key {
        MapKeyType::Bool => ValueType::Bool,
        MapKeyType::Int => ValueType::Int,
        MapKeyType::Uint => ValueType::Uint,
        MapKeyType::String => ValueType::String,
        MapKeyType::Dyn => ValueType::Dyn,
        MapKeyType::TypeParam(tp) => ValueType::TypeParam(tp),
    }
}

/// The map key type for a type: `bool`, `int`, `uint`, `string`, `dyn` and
/// type parameters may key a map, and every other type is refused.
pub open spec fn type_to_map_key(value: ValueType) -> Result<MapKeyType, InvalidMapKeyType> {
    match value {
        ValueType::Bool => Ok(MapKeyType::Bool),
        ValueType::Int => Ok(MapKeyType::Int),
        ValueType::Uint => Ok(MapKeyType::Uint),
        ValueType::String => Ok(MapKeyType::String),
        ValueType::Dyn => Ok(MapKeyType::Dyn),
        ValueType::TypeParam(tp) => Ok(MapKeyType::TypeParam(tp)),
        _ => Err(InvalidMapKeyType(value)),
    }
}

impl From<MapKeyType> for ValueType {
    fn from(key: MapKeyType) -> (r: ValueType) {
        match key {
            MapKeyType::Bool => ValueType::Bool,
            MapKeyType::Int => ValueType::Int,
            MapKeyType::Uint => ValueType::Uint,
            MapKeyType::String => ValueType::String,
            MapKeyType::Dyn => ValueType::Dyn,
            MapKeyType::TypeParam(tp) => ValueType::TypeParam(tp),
        }
    }
}

impl FromSpecImpl<MapKeyType> for ValueType {
    open spec fn obeys_from_spec() -> bool {
        true
    }

    open spec fn from_spec(v: MapKeyType) -> ValueType {
        map_key_to_type(v)
    }
}

impl TryFrom<ValueType> for MapKeyType {
    type Error = InvalidMapKeyType;

    fn try_from(value: ValueType) -> (r: Result<MapKeyType, InvalidMapKeyType>) {
        match value {
            ValueType::Bool => Ok(MapKeyType::Bool),
            ValueType::Int => Ok(MapKeyType::Int),
            ValueType::Uint => Ok(MapKeyType::Uint),
            ValueType::String => Ok(MapKeyType::String),
            ValueType::Dyn => Ok(MapKeyType::Dyn),
            ValueType::TypeParam(tp) => Ok(MapKeyType::TypeParam(tp)),
            _ => Err(InvalidMapKeyType::new(value)),
        }
    }
}

impl TryFromSpecImpl<ValueType> for MapKeyType {
    open spec fn obeys_try_from_spec() -> bool {
        true
    }

    open spec fn try_from_spec(v: ValueType) -> Result<MapKeyType, InvalidMapKeyType> {
        type_to_map_key(v)
    }
}

} // verus!
