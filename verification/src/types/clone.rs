//! Copies of types that keep their models.
use vstd::prelude::*;
use super::view::{lemma_view_types, view_types};
use super::{
    EnumType, FunctionType, ListType, MapKeyType, MapType, OpaqueType, OptionalType, StructType,
    TypeParamType, TypeType, ValueType,
};

verus! {

impl MapKeyType {
    /// Returns a copy of this key type.
    pub fn duplicate(&self) -> (r: MapKeyType)
        ensures
            r@ == self@,
    {
        match self {
            MapKeyType::Bool => MapKeyType::Bool,
            MapKeyType::Int => MapKeyType::Int,
            MapKeyType::Uint => MapKeyType::Uint,
            MapKeyType::String => MapKeyType::String,
            MapKeyType::Dyn => MapKeyType::Dyn,
            MapKeyType::TypeParam(tp) => MapKeyType::TypeParam(
                TypeParamType { name: tp.name.clone() },
            ),
        }
    }
}

impl ValueType {
    /// Returns a copy of this type.
    pub fn duplicate(&self) -> (r: ValueType)
        ensures
            r@ == self@,
        decreases self, 0nat,
    {
        match self {
            ValueType::Null => ValueType::Null,
            ValueType::Bool => ValueType::Bool,
            ValueType::Int => ValueType::Int,
            ValueType::Uint => ValueType::Uint,
            ValueType::Double => ValueType::Double,
            ValueType::String => ValueType::String,
            ValueType::Bytes => ValueType::Bytes,
            ValueType::Struct(s) => ValueType::Struct(StructType { name: s.name.clone() }),
            ValueType::Duration => ValueType::Duration,
            ValueType::Timestamp => ValueType::Timestamp,
            ValueType::List(l) => ValueType::List(
                ListType { element: Box::new(l.element.duplicate()) },
            ),
            ValueType::Mapping(m) => ValueType::Mapping(
                MapType { key: m.key.duplicate(), value: Box::new(m.value.duplicate()) },
            ),
            ValueType::Unknown => ValueType::Unknown,
            ValueType::Type(t) => match &t.parameter {
                Some(p) => ValueType::Type(TypeType { parameter: Some(Box::new(p.duplicate())) }),
                None => ValueType::Type(TypeType { parameter: None }),
            },
            ValueType::Error => ValueType::Error,
            ValueType::Any => ValueType::Any,
            ValueType::Dyn => ValueType::Dyn,
            ValueType::Opaque(o) => ValueType::Opaque(
                OpaqueType { name: o.name.clone(), parameters: duplicate_types(&o.parameters) },
            ),
            ValueType::Optional(o) => ValueType::Optional(
                OptionalType { parameter: Box::new(o.parameter.duplicate()) },
            ),
            ValueType::BoolWrapper => ValueType::BoolWrapper,
            ValueType::IntWrapper => ValueType::IntWrapper,
            ValueType::UintWrapper => ValueType::UintWrapper,
            ValueType::DoubleWrapper => ValueType::DoubleWrapper,
            ValueType::StringWrapper => ValueType::StringWrapper,
            ValueType::BytesWrapper => ValueType::BytesWrapper,
            ValueType::TypeParam(tp) => ValueType::TypeParam(TypeParamType { name: tp.name.clone() }),
            ValueType::Function(f) => ValueType::Function(
                FunctionType {
                    result: Box::new(f.result.duplicate()),
                    arguments: duplicate_types(&f.arguments),
                },
            ),
            ValueType::Enum(e) => ValueType::Enum(EnumType { name: e.name.clone() }),
        }
    }
}

/// Returns a copy of a sequence of types, element by element.
pub fn duplicate_types(v: &Vec<ValueType>) -> (r: Vec<ValueType>)
    ensures
        view_types(r@) == view_types(v@),
        r@.len() == v@.len(),
        forall|i: int| 0 <= i < v@.len() ==> #[trigger] r@[i]@ == v@[i]@,
    decreases v, 1nat,
{
    let mut r: Vec<ValueType> = Vec::new();
    let n = v.len();
    let mut i: usize = 0;
    while i < n
        invariant
            n == v.len(),
            0 <= i <= n,
            r@.len() == i,
            forall|j: int| 0 <= j < i ==> #[trigger] r@[j]@ == v@[j]@,
        decreases n - i,
    {
        let t = v[i].duplicate();
        r.push(t);
        i += 1;
    }
    proof {
        lemma_view_types(r@);
        lemma_view_types(v@);
        assert forall|j: int| 0 <= j < r@.len() implies view_types(r@)[j] == view_types(v@)[j] by {
            assert(r@[j]@ == v@[j]@);
        }
        assert(view_types(r@) =~= view_types(v@));
    }
    r
}

impl Clone for ValueType {
    fn clone(&self) -> (r: Self)
        ensures
            r@ == self@,
    {
        self.duplicate()
    }
}

impl Clone for MapKeyType {
    fn clone(&self) -> (r: Self)
        ensures
            r@ == self@,
    {
        self.duplicate()
    }
}

impl Clone for StructType {
    fn clone(&self) -> (r: Self)
        ensures
            r@ == self@,
    {
        StructType { name: self.name.clone() }
    }
}

impl Clone for TypeParamType {
    fn clone(&self) -> (r: Self)
        ensures
            r@ == self@,
    {
        TypeParamType { name: self.name.clone() }
    }
}

impl Clone for EnumType {
    fn clone(&self) -> (r: Self)
        ensures
            r@ == self@,
    {
        EnumType { name: self.name.clone() }
    }
}

impl Clone for ListType {
    fn clone(&self) -> (r: Self)
        ensures
            r@ == self@,
    {
        ListType { element: Box::new(self.element.duplicate()) }
    }
}

impl Clone for MapType {
    fn clone(&self) -> (r: Self)
        ensures
            r@ == self@,
    {
        MapType { key: self.key.duplicate(), value: Box::new(self.value.duplicate()) }
    }
}

impl Clone for TypeType {
    fn clone(&self) -> (r: Self)
        ensures
            r@ == self@,
    {
        match &self.parameter {
            Some(p) => TypeType { parameter: Some(Box::new(p.duplicate())) },
            None => TypeType { parameter: None },
        }
    }
}

impl Clone for OpaqueType {
    fn clone(&self) -> (r: Self)
        ensures
            r@ == self@,
    {
        OpaqueType { name: self.name.clone(), parameters: duplicate_types(&self.parameters) }
    }
}

impl Clone for OptionalType {
    fn clone(&self) -> (r: Self)
        ensures
            r@ == self@,
    {
        OptionalType { parameter: Box::new(self.parameter.duplicate()) }
    }
}

impl Clone for FunctionType {
    fn clone(&self) -> (r: Self)
        ensures
            r@ == self@,
    {
        FunctionType {
            result: Box::new(self.result.duplicate()),
            arguments: duplicate_types(&self.arguments),
        }
    }
}

} // verus!
