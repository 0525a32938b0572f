//! Properties of the conversions between map key types and types.
use vstd::prelude::*;
use super::convert::{map_key_to_type, type_to_map_key};
use super::display::{map_key_display, type_display};
use super::view::{kind_of, map_key_kind_of, view_type, TypeView};
use super::{EnumType, OpaqueType, StructType, TypeParamType};
use crate::kind::kind_name;
use super::{MapKeyType, ValueType};
use crate::kind::Kind;

verus! {

/// Converting a map key type to a type and back gives the key type.
pub proof fn law_map_key_round_trip(k: MapKeyType)
    ensures
        type_to_map_key(map_key_to_type(k)) == Ok::<MapKeyType, super::InvalidMapKeyType>(k),
{
}

/// A type that converts to a map key type is the type of that key type.
pub proof fn law_map_key_from_type(t: ValueType)
    ensures
        type_to_map_key(t) matches Ok(k) ==> map_key_to_type(k) == t,
{
}

/// A type converts to a map key type exactly when its kind is `bool`, `int`,
/// `uint`, `string`, `dyn` or a type parameter; otherwise the error holds the
/// type itself.
pub proof fn law_map_key_types(t: ValueType)
    ensures
        type_to_map_key(t).is_ok() <==> (kind_of(t@) == Kind::Bool || kind_of(t@) == Kind::Int
            || kind_of(t@) == Kind::Uint || kind_of(t@) == Kind::String || kind_of(t@) == Kind::Dyn
            || kind_of(t@) == Kind::TypeParam),
        type_to_map_key(t) matches Err(e) ==> e.0 == t,
{
}

/// A map key type and the type it stands for have the same kind and the same
/// display text.
pub proof fn law_map_key_agrees_with_type(k: MapKeyType)
    ensures
        kind_of(map_key_to_type(k)@) == map_key_kind_of(k@),
        type_display(map_key_to_type(k)@) == map_key_display(k@),
{
}

/// Only opaque and optional types have the opaque kind; every other type has
/// a kind of its own, and a message (struct) type has the struct kind.
pub proof fn law_opaque_kind_exactly(t: ValueType)
    ensures
        kind_of(t@) == Kind::Opaque <==> (t@ is Opaque || t@ is Optional),
        t is Struct <==> kind_of(t@) == Kind::Struct,
        t is Enum <==> kind_of(t@) == Kind::Enum,
        t is List <==> kind_of(t@) == Kind::List,
        t is Mapping <==> kind_of(t@) == Kind::Mapping,
        t is Function <==> kind_of(t@) == Kind::Function,
        t is TypeParam <==> kind_of(t@) == Kind::TypeParam,
        t is Type <==> kind_of(t@) == Kind::Type,
{
}

/// A type without parameters or name displays as the name of its kind, so the
/// kind and the display text of such a type agree.
pub proof fn law_plain_types_display_as_their_kind(t: TypeView)
    requires
        !(t is Struct || t is List || t is Mapping || t is Type || t is Opaque || t is Optional
            || t is TypeParam || t is Function || t is Enum),
    ensures
        type_display(t) == kind_name(kind_of(t)),
{
}

/// A list, map or type type displays as the name of its kind followed by its
/// parameters in angle brackets (a type type without parameter as the name
/// alone).
pub proof fn law_parameterised_display_starts_with_kind(t: TypeView)
    requires
        t is List || t is Mapping || t is Type,
    ensures
        type_display(t).len() >= kind_name(kind_of(t)).len(),
        type_display(t).subrange(0, kind_name(kind_of(t)).len() as int) == kind_name(kind_of(t)),
{
    reveal_strlit("list");
    reveal_strlit("list<");
    reveal_strlit("map");
    reveal_strlit("map<");
    reveal_strlit("type");
    reveal_strlit("type<");
    match t {
        TypeView::List(e) => {
            let d = type_display(t);
            assert(d == "list<"@ + type_display(*e) + ">"@);
            assert(d.subrange(0, 4) =~= "list"@);
        },
        TypeView::Mapping(k, v) => {
            let d = type_display(t);
            assert(d.subrange(0, 3) =~= "map"@);
        },
        TypeView::Type(p) => {
            let d = type_display(t);
            assert(d.subrange(0, 4) =~= "type"@);
        },
        _ => {},
    }
}

/// A message (struct) type displays as its fully qualified name.
pub proof fn law_struct_displays_as_its_name(s: StructType)
    ensures
        type_display(view_type(ValueType::Struct(s))) == s.name@,
{
}

/// An enum type displays as its name.
pub proof fn law_enum_displays_as_its_name(e: EnumType)
    ensures
        type_display(view_type(ValueType::Enum(e))) == e.name@,
{
}

/// A type parameter displays as its name.
pub proof fn law_type_param_displays_as_its_name(p: TypeParamType)
    ensures
        type_display(view_type(ValueType::TypeParam(p))) == p.name@,
{
}

/// An opaque type without parameters displays as its name; with parameters,
/// its name is followed by `<`.
pub proof fn law_opaque_displays_its_name(o: OpaqueType)
    ensures
        o.parameters@.len() == 0 ==> type_display(view_type(ValueType::Opaque(o))) == o.name@,
        type_display(view_type(ValueType::Opaque(o))).len() >= o.name@.len(),
        type_display(view_type(ValueType::Opaque(o))).subrange(0, o.name@.len() as int) == o.name@,
{
    super::view::lemma_view_types(o.parameters@);
    let d = type_display(view_type(ValueType::Opaque(o)));
    if o.parameters@.len() > 0 {
        assert(d.subrange(0, o.name@.len() as int) =~= o.name@);
    } else {
        assert(d.subrange(0, o.name@.len() as int) =~= o.name@);
    }
}

} // verus!
