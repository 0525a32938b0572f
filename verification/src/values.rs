//! Rust types that have a CEL type.
use vstd::prelude::*;
use std::collections::HashMap;
use crate::types::{ListType, MapKeyType, MapKeyView, MapType, OptionalType, TypeView, ValueType};

verus! {

/// A Rust type whose values are CEL values of one known CEL type.
pub trait TypedValue {
    /// The model of the CEL type of this Rust type.
    spec fn spec_value_type() -> TypeView;

    /// Returns the CEL type of this Rust type.
    fn value_type() -> (r: ValueType)
        ensures
            r@ == Self::spec_value_type(),
    ;
}

impl TypedValue for () {
    open spec fn spec_value_type() -> TypeView {
        TypeView::Null
    }

    fn value_type() -> (r: ValueType) {
        ValueType::Null
    }
}

impl TypedValue for bool {
    open spec fn spec_value_type() -> TypeView {
        TypeView::Bool
    }

    fn value_type() -> (r: ValueType) {
        ValueType::Bool
    }
}

impl TypedValue for i64 {
    open spec fn spec_value_type() -> TypeView {
        TypeView::Int
    }

    fn value_type() -> (r: ValueType) {
        ValueType::Int
    }
}

impl TypedValue for i32 {
    open spec fn spec_value_type() -> TypeView {
        TypeView::Int
    }

    fn value_type() -> (r: ValueType) {
        ValueType::Int
    }
}

impl TypedValue for u64 {
    open spec fn spec_value_type() -> TypeView {
        TypeView::Uint
    }

    fn value_type() -> (r: ValueType) {
        ValueType::Uint
    }
}

impl TypedValue for u32 {
    open spec fn spec_value_type() -> TypeView {
        TypeView::Uint
    }

    fn value_type() -> (r: ValueType) {
        ValueType::Uint
    }
}

impl TypedValue for String {
    open spec fn spec_value_type() -> TypeView {
        TypeView::String
    }

    fn value_type() -> (r: ValueType) {
        ValueType::String
    }
}

impl<'a> TypedValue for &'a str {
    open spec fn spec_value_type() -> TypeView {
        TypeView::String
    }

    fn value_type() -> (r: ValueType) {
        ValueType::String
    }
}

impl<T: TypedValue> TypedValue for Option<T> {
    open spec fn spec_value_type() -> TypeView {
        TypeView::Optional(Box::new(T::spec_value_type()))
    }

    fn value_type() -> (r: ValueType) {
        ValueType::Optional(OptionalType::new(T::value_type()))
    }
}

impl TypedValue for Vec<u8> {
    open spec fn spec_value_type() -> TypeView {
        TypeView::Bytes
    }

    fn value_type() -> (r: ValueType) {
        ValueType::Bytes
    }
}

impl<'a> TypedValue for &'a [u8] {
    open spec fn spec_value_type() -> TypeView {
        TypeView::Bytes
    }

    fn value_type() -> (r: ValueType) {
        ValueType::Bytes
    }
}

impl<T: TypedValue> TypedValue for Vec<T> {
    open spec fn spec_value_type() -> TypeView {
        TypeView::List(Box::new(T::spec_value_type()))
    }

    fn value_type() -> (r: ValueType) {
        ValueType::List(ListType::new(T::value_type()))
    }
}

/// A Rust type whose values can be keys of CEL maps, with its CEL key type.
pub trait TypedMapKey {
    /// The model of the CEL key type of this Rust type.
    spec fn spec_map_key_type() -> MapKeyView;

    /// Returns the CEL key type of this Rust type.
    fn map_key_type() -> (r: MapKeyType)
        ensures
            r@ == Self::spec_map_key_type(),
    ;
}

impl TypedMapKey for bool {
    open spec fn spec_map_key_type() -> MapKeyView {
        MapKeyView::Bool
    }

    fn map_key_type() -> (r: MapKeyType) {
        MapKeyType::Bool
    }
}

impl TypedMapKey for i64 {
    open spec fn spec_map_key_type() -> MapKeyView {
        MapKeyView::Int
    }

    fn map_key_type() -> (r: MapKeyType) {
        MapKeyType::Int
    }
}

impl TypedMapKey for i32 {
    open spec fn spec_map_key_type() -> MapKeyView {
        MapKeyView::Int
    }

    fn map_key_type() -> (r: MapKeyType) {
        MapKeyType::Int
    }
}

impl TypedMapKey for u64 {
    open spec fn spec_map_key_type() -> MapKeyView {
        MapKeyView::Uint
    }

    fn map_key_type() -> (r: MapKeyType) {
        MapKeyType::Uint
    }
}

impl TypedMapKey for u32 {
    open spec fn spec_map_key_type() -> MapKeyView {
        MapKeyView::Uint
    }

    fn map_key_type() -> (r: MapKeyType) {
        MapKeyType::Uint
    }
}

impl TypedMapKey for String {
    open spec fn spec_map_key_type() -> MapKeyView {
        MapKeyView::String
    }

    fn map_key_type() -> (r: MapKeyType) {
        MapKeyType::String
    }
}

impl<'a> TypedMapKey for &'a str {
    open spec fn spec_map_key_type() -> MapKeyView {
        MapKeyView::String
    }

    fn map_key_type() -> (r: MapKeyType) {
        MapKeyType::String
    }
}

impl<K: TypedMapKey, V: TypedValue> TypedValue for HashMap<K, V> {
    open spec fn spec_value_type() -> TypeView {
        TypeView::Mapping(K::spec_map_key_type(), Box::new(V::spec_value_type()))
    }

    fn value_type() -> (r: ValueType) {
        ValueType::Mapping(MapType::new(K::map_key_type(), V::value_type()))
    }
}

/// A literal constant of a CEL expression.
#[derive(Debug)]
pub enum Constant {
    /// `null`.
    Null,
    /// A boolean.
    Bool(bool),
    /// A signed integer.
    Int(i64),
    /// An unsigned integer.
    Uint(u64),
    /// A double, held as its IEEE-754 bit pattern.
    Double(u64),
    /// A byte string.
    Bytes(Vec<u8>),
    /// A string.
    String(String),
}

} // verus!
