//! Mathematical models of CEL types.
use vstd::prelude::*;
use crate::kind::Kind;
use super::{MapKeyType, ValueType};

verus! {

/// The model of a map key type: names are taken as character sequences.
pub ghost enum MapKeyView {
    Bool,
    Int,
    Uint,
    String,
    Dyn,
    TypeParam(Seq<char>),
}

/// The model of a CEL type: every name is a character sequence and every
/// list of types a sequence of models.
pub ghost enum TypeView {
    Null,
    Bool,
    Int,
    Uint,
    Double,
    String,
    Bytes,
    Struct(Seq<char>),
    Duration,
    Timestamp,
    List(Box<TypeView>),
    Mapping(MapKeyView, Box<TypeView>),
    Unknown,
    Type(Option<Box<TypeView>>),
    Error,
    Any,
    Dyn,
    Opaque(Seq<char>, Seq<TypeView>),
    Optional(Box<TypeView>),
    BoolWrapper,
    IntWrapper,
    UintWrapper,
    DoubleWrapper,
    StringWrapper,
    BytesWrapper,
    TypeParam(Seq<char>),
    Function(Box<TypeView>, Seq<TypeView>),
    Enum(Seq<char>),
}

/// The model of a map key type.
pub open spec fn view_map_key(k: MapKeyType) -> MapKeyView {
    match k {
        MapKeyType::Bool => MapKeyView::Bool,
        MapKeyType::Int => MapKeyView::Int,
        MapKeyType::Uint => MapKeyView::Uint,
        MapKeyType::String => MapKeyView::String,
        MapKeyType::Dyn => MapKeyView::Dyn,
        MapKeyType::TypeParam(tp) => MapKeyView::TypeParam(tp.name@),
    }
}

/// The model of a type.
pub open spec fn view_type(t: ValueType) -> TypeView
    decreases t,
{
    match t {
        ValueType::Null => TypeView::Null,
        ValueType::Bool => TypeView::Bool,
        ValueType::Int => TypeView::Int,
        ValueType::Uint => TypeView::Uint,
        ValueType::Double => TypeView::Double,
        ValueType::String => TypeView::String,
        ValueType::Bytes => TypeView::Bytes,
        ValueType::Struct(s) => TypeView::Struct(s.name@),
        ValueType::Duration => TypeView::Duration,
        ValueType::Timestamp => TypeView::Timestamp,
        ValueType::List(l) => TypeView::List(Box::new(view_type(*l.element))),
        ValueType::Mapping(m) => TypeView::Mapping(view_map_key(m.key), Box::new(view_type(*m.value))),
        ValueType::Unknown => TypeView::Unknown,
        ValueType::Type(tt) => TypeView::Type(
            match tt.parameter {
                Some(p) => Some(Box::new(view_type(*p))),
                None => None,
            },
        ),
        ValueType::Error => TypeView::Error,
        ValueType::Any => TypeView::Any,
        ValueType::Dyn => TypeView::Dyn,
        ValueType::Opaque(o) => TypeView::Opaque(o.name@, view_types(o.parameters@)),
        ValueType::Optional(o) => TypeView::Optional(Box::new(view_type(*o.parameter))),
        ValueType::BoolWrapper => TypeView::BoolWrapper,
        ValueType::IntWrapper => TypeView::IntWrapper,
        ValueType::UintWrapper => TypeView::UintWrapper,
        ValueType::DoubleWrapper => TypeView::DoubleWrapper,
        ValueType::StringWrapper => TypeView::StringWrapper,
        ValueType::BytesWrapper => TypeView::BytesWrapper,
        ValueType::TypeParam(tp) => TypeView::TypeParam(tp.name@),
        ValueType::Function(f) => TypeView::Function(
            Box::new(view_type(*f.result)),
            view_types(f.arguments@),
        ),
        ValueType::Enum(e) => TypeView::Enum(e.name@),
    }
}

/// The models of a sequence of types, element by element.
pub open spec fn view_types(ts: Seq<ValueType>) -> Seq<TypeView>
    decreases ts,
{
    if ts.len() == 0 {
        Seq::empty()
    } else {
        view_types(ts.drop_last()).push(view_type(ts.last()))
    }
}

/// The models of a sequence of types have its length, and each is the model of
/// the type at the same place.
pub proof fn lemma_view_types(ts: Seq<ValueType>)
    ensures
        view_types(ts).len() == ts.len(),
        forall|i: int| 0 <= i < ts.len() ==> #[trigger] view_types(ts)[i] == view_type(ts[i]),
    decreases ts.len(),
{
    if ts.len() > 0 {
        lemma_view_types(ts.drop_last());
    }
}

/// The kind of a modelled type.
pub open spec fn kind_of(t: TypeView) -> Kind {
    match t {
        TypeView::Null => Kind::Null,
        TypeView::Bool => Kind::Bool,
        TypeView::Int => Kind::Int,
        TypeView::Uint => Kind::Uint,
        TypeView::Double => Kind::Double,
        TypeView::String => Kind::String,
        TypeView::Bytes => Kind::Bytes,
        TypeView::Struct(_) => Kind::Struct,
        TypeView::Duration => Kind::Duration,
        TypeView::Timestamp => Kind::Timestamp,
        TypeView::List(_) => Kind::List,
        TypeView::Mapping(_, _) => Kind::Mapping,
        TypeView::Unknown => Kind::Unknown,
        TypeView::Type(_) => Kind::Type,
        TypeView::Error => Kind::Error,
        TypeView::Any => Kind::Any,
        TypeView::Dyn => Kind::Dyn,
        TypeView::Opaque(_, _) => Kind::Opaque,
        TypeView::Optional(_) => Kind::Opaque,
        TypeView::BoolWrapper => Kind::BoolWrapper,
        TypeView::IntWrapper => Kind::IntWrapper,
        TypeView::UintWrapper => Kind::UintWrapper,
        TypeView::DoubleWrapper => Kind::DoubleWrapper,
        TypeView::StringWrapper => Kind::StringWrapper,
        TypeView::BytesWrapper => Kind::BytesWrapper,
        TypeView::TypeParam(_) => Kind::TypeParam,
        TypeView::Function(_, _) => Kind::Function,
        TypeView::Enum(_) => Kind::Enum,
    }
}

/// The kind of a modelled map key type.
pub open spec fn map_key_kind_of(k: MapKeyView) -> Kind {
    match k {
        MapKeyView::Bool => Kind::Bool,
        MapKeyView::Int => Kind::Int,
        MapKeyView::Uint => Kind::Uint,
        MapKeyView::String => Kind::String,
        MapKeyView::Dyn => Kind::Dyn,
        MapKeyView::TypeParam(_) => Kind::TypeParam,
    }
}

/// The kinds of a sequence of modelled types, element by element.
pub open spec fn kinds_of(ts: Seq<TypeView>) -> Seq<Kind> {
    ts.map_values(|t: TypeView| kind_of(t))
}

} // verus!
