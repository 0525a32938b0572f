//! Equality of types, decided over their models.
use vstd::prelude::*;
use super::view::{lemma_view_types, view_types, MapKeyView, TypeView};
use super::{
    EnumType, FunctionType, ListType, MapKeyType, MapType, OpaqueType, OptionalType, StructType,
    TypeParamType, TypeType, ValueType,
};

verus! {

impl MapKeyType {
    /// Decides whether two key types are the same.
    pub fn equals(&self, other: &MapKeyType) -> (r: bool)
        ensures
            r == (self@ == other@),
    {
        match (self, other) {
            (MapKeyType::Bool, MapKeyType::Bool) => true,
            (MapKeyType::Int, MapKeyType::Int) => true,
            (MapKeyType::Uint, MapKeyType::Uint) => true,
            (MapKeyType::String, MapKeyType::String) => true,
            (MapKeyType::Dyn, MapKeyType::Dyn) => true,
            (MapKeyType::TypeParam(a), MapKeyType::TypeParam(b)) => a.name == b.name,
            _ => false,
        }
    }
}

impl ValueType {
    /// Decides whether two types are the same.
    pub fn equals(&self, other: &ValueType) -> (r: bool)
        ensures
            r == (self@ == other@),
        decreases self, 0nat,
    {
        match (self, other) {
            (ValueType::Null, ValueType::Null) => true,
            (ValueType::Bool, ValueType::Bool) => true,
            (ValueType::Int, ValueType::Int) => true,
            (ValueType::Uint, ValueType::Uint) => true,
            (ValueType::Double, ValueType::Double) => true,
            (ValueType::String, ValueType::String) => true,
            (ValueType::Bytes, ValueType::Bytes) => true,
            (ValueType::Struct(a), ValueType::Struct(b)) => a.name == b.name,
            (ValueType::Duration, ValueType::Duration) => true,
            (ValueType::Timestamp, ValueType::Timestamp) => true,
            (ValueType::List(a), ValueType::List(b)) => a.element.equals(&b.element),
            (ValueType::Mapping(a), ValueType::Mapping(b)) => {
                a.key.equals(&b.key) && a.value.equals(&b.value)
            },
            (ValueType::Unknown, ValueType::Unknown) => true,
            (ValueType::Type(a), ValueType::Type(b)) => match (&a.parameter, &b.parameter) {
                (Some(pa), Some(pb)) => pa.equals(pb),
                (None, None) => true,
                _ => false,
            },
            (ValueType::Error, ValueType::Error) => true,
            (ValueType::Any, ValueType::Any) => true,
            (ValueType::Dyn, ValueType::Dyn) => true,
            (ValueType::Opaque(a), ValueType::Opaque(b)) => {
                a.name == b.name && types_equal(&a.parameters, &b.parameters)
            },
            (ValueType::Optional(a), ValueType::Optional(b)) => a.parameter.equals(&b.parameter),
            (ValueType::BoolWrapper, ValueType::BoolWrapper) => true,
            (ValueType::IntWrapper, ValueType::IntWrapper) => true,
            (ValueType::UintWrapper, ValueType::UintWrapper) => true,
            (ValueType::DoubleWrapper, ValueType::DoubleWrapper) => true,
            (ValueType::StringWrapper, ValueType::StringWrapper) => true,
            (ValueType::BytesWrapper, ValueType::BytesWrapper) => true,
            (ValueType::TypeParam(a), ValueType::TypeParam(b)) => a.name == b.name,
            (ValueType::Function(a), ValueType::Function(b)) => {
                a.result.equals(&b.result) && types_equal(&a.arguments, &b.arguments)
            },
            (ValueType::Enum(a), ValueType::Enum(b)) => a.name == b.name,
            _ => false,
        }
    }
}

/// Decides whether two sequences of types are the same, element by element.
pub fn types_equal(a: &Vec<ValueType>, b: &Vec<ValueType>) -> (r: bool)
    ensures
        r == (view_types(a@) == view_types(b@)),
    decreases a, 1nat,
{
    proof {
        lemma_view_types(a@);
        lemma_view_types(b@);
    }
    if a.len() != b.len() {
        return false;
    }
    let n = a.len();
    let mut i: usize = 0;
    while i < n
        invariant
            n == a.len(),
            n == b.len(),
            0 <= i <= n,
            view_types(a@).len() == n,
            view_types(b@).len() == n,
            forall|j: int| 0 <= j < n ==> #[trigger] view_types(a@)[j] == a@[j]@,
            forall|j: int| 0 <= j < n ==> #[trigger] view_types(b@)[j] == b@[j]@,
            forall|j: int| 0 <= j < i ==> a@[j]@ == b@[j]@,
        decreases n - i,
    {
        if !a[i].equals(&b[i]) {
            assert(view_types(a@)[i as int] != view_types(b@)[i as int]);
            return false;
        }
        i += 1;
    }
    assert(view_types(a@) =~= view_types(b@));
    true
}

/// Decides whether a sequence of types and a slice of types are the same,
/// element by element.
pub fn types_equal_slice(a: &Vec<ValueType>, b: &[ValueType]) -> (r: bool)
    ensures
        r == (view_types(a@) == view_types(b@)),
{
    proof {
        lemma_view_types(a@);
        lemma_view_types(b@);
    }
    if a.len() != b.len() {
        return false;
    }
    let n = a.len();
    let mut i: usize = 0;
    while i < n
        invariant
            n == a@.len(),
            n == b@.len(),
            0 <= i <= n,
            view_types(a@).len() == n,
            view_types(b@).len() == n,
            forall|j: int| 0 <= j < n ==> #[trigger] view_types(a@)[j] == a@[j]@,
            forall|j: int| 0 <= j < n ==> #[trigger] view_types(b@)[j] == b@[j]@,
            forall|j: int| 0 <= j < i ==> a@[j]@ == b@[j]@,
        decreases n - i,
    {
        if !a[i].equals(&b[i]) {
            assert(view_types(a@)[i as int] != view_types(b@)[i as int]);
            return false;
        }
        i += 1;
    }
    assert(view_types(a@) =~= view_types(b@));
    true
}

impl PartialEq for ValueType {
    fn eq(&self, other: &Self) -> (r: bool) {
        self.equals(other)
    }
}

impl Eq for ValueType {}

impl vstd::std_specs::cmp::PartialEqSpecImpl for ValueType {
    open spec fn obeys_eq_spec() -> bool {
        true
    }

    open spec fn eq_spec(&self, other: &ValueType) -> bool {
        self@ == other@
    }
}

impl PartialEq for MapKeyType {
    fn eq(&self, other: &Self) -> (r: bool) {
        self.equals(other)
    }
}

impl Eq for MapKeyType {}

impl vstd::std_specs::cmp::PartialEqSpecImpl for MapKeyType {
    open spec fn obeys_eq_spec() -> bool {
        true
    }

    open spec fn eq_spec(&self, other: &MapKeyType) -> bool {
        self@ == other@
    }
}

impl PartialEq for StructType {
    fn eq(&self, other: &Self) -> (r: bool) {
        self.name == other.name
    }
}

impl Eq for StructType {}

impl vstd::std_specs::cmp::PartialEqSpecImpl for StructType {
    open spec fn obeys_eq_spec() -> bool {
        true
    }

    open spec fn eq_spec(&self, other: &StructType) -> bool {
        self@ == other@
    }
}

impl PartialEq for TypeParamType {
    fn eq(&self, other: &Self) -> (r: bool) {
        self.name == other.name
    }
}

impl Eq for TypeParamType {}

impl vstd::std_specs::cmp::PartialEqSpecImpl for TypeParamType {
    open spec fn obeys_eq_spec() -> bool {
        true
    }

    open spec fn eq_spec(&self, other: &TypeParamType) -> bool {
        self@ == other@
    }
}

impl PartialEq for EnumType {
    fn eq(&self, other: &Self) -> (r: bool) {
        self.name == other.name
    }
}

impl Eq for EnumType {}

impl vstd::std_specs::cmp::PartialEqSpecImpl for EnumType {
    open spec fn obeys_eq_spec() -> bool {
        true
    }

    open spec fn eq_spec(&self, other: &EnumType) -> bool {
        self@ == other@
    }
}

impl PartialEq for ListType {
    fn eq(&self, other: &Self) -> (r: bool) {
        self.element.equals(&other.element)
    }
}

impl Eq for ListType {}

impl vstd::std_specs::cmp::PartialEqSpecImpl for ListType {
    open spec fn obeys_eq_spec() -> bool {
        true
    }

    open spec fn eq_spec(&self, other: &ListType) -> bool {
        self@ == other@
    }
}

impl PartialEq for MapType {
    fn eq(&self, other: &Self) -> (r: bool) {
        self.key.equals(&other.key) && self.value.equals(&other.value)
    }
}

impl Eq for MapType {}

impl vstd::std_specs::cmp::PartialEqSpecImpl for MapType {
    open spec fn obeys_eq_spec() -> bool {
        true
    }

    open spec fn eq_spec(&self, other: &MapType) -> bool {
        self@ == other@
    }
}

impl PartialEq for TypeType {
    fn eq(&self, other: &Self) -> (r: bool) {
        match (&self.parameter, &other.parameter) {
            (Some(a), Some(b)) => a.equals(b),
            (None, None) => true,
            _ => false,
        }
    }
}

impl Eq for TypeType {}

impl vstd::std_specs::cmp::PartialEqSpecImpl for TypeType {
    open spec fn obeys_eq_spec() -> bool {
        true
    }

    open spec fn eq_spec(&self, other: &TypeType) -> bool {
        self@ == other@
    }
}

impl PartialEq for OpaqueType {
    fn eq(&self, other: &Self) -> (r: bool) {
        self.name == other.name && types_equal(&self.parameters, &other.parameters)
    }
}

impl Eq for OpaqueType {}

impl vstd::std_specs::cmp::PartialEqSpecImpl for OpaqueType {
    open spec fn obeys_eq_spec() -> bool {
        true
    }

    open spec fn eq_spec(&self, other: &OpaqueType) -> bool {
        self@ == other@
    }
}

impl PartialEq for OptionalType {
    fn eq(&self, other: &Self) -> (r: bool) {
        self.parameter.equals(&other.parameter)
    }
}

impl Eq for OptionalType {}

impl vstd::std_specs::cmp::PartialEqSpecImpl for OptionalType {
    open spec fn obeys_eq_spec() -> bool {
        true
    }

    open spec fn eq_spec(&self, other: &OptionalType) -> bool {
        self@ == other@
    }
}

impl PartialEq for FunctionType {
    fn eq(&self, other: &Self) -> (r: bool) {
        self.result.equals(&other.result) && types_equal(&self.arguments, &other.arguments)
    }
}

impl Eq for FunctionType {}

impl vstd::std_specs::cmp::PartialEqSpecImpl for FunctionType {
    open spec fn obeys_eq_spec() -> bool {
        true
    }

    open spec fn eq_spec(&self, other: &FunctionType) -> bool {
        self@ == other@
    }
}

} // verus!
