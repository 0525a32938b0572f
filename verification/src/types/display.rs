//! The text by which types are displayed.
use vstd::prelude::*;
use crate::kind::{kind_name, Kind};
use crate::text::{concat, join_seq, join_strings, strings_view, text};
use super::view::{lemma_view_types, view_type, view_types, MapKeyView, TypeView};
use super::{
    EnumType, FunctionType, ListType, MapKeyType, MapType, OpaqueType, OptionalType, StructType,
    TypeParamType, TypeType, ValueType,
};

verus! {

/// The display text of a map key type.
pub open spec fn map_key_display(k: MapKeyView) -> Seq<char> {
    match k {
        MapKeyView::Bool => "bool"@,
        MapKeyView::Int => "int"@,
        MapKeyView::Uint => "uint"@,
        MapKeyView::String => "string"@,
        MapKeyView::Dyn => "dyn"@,
        MapKeyView::TypeParam(name) => name,
    }
}

/// The display text of a type.
///
/// Types without parameters display as their kind; named types as their name;
/// `list<T>`, `map<K, V>`, `type`/`type<T>`, `optional<T>`, `Name<T1, T2>` and
/// `(A1, A2) -> R` spell out their parameters.
pub open spec fn type_display(t: TypeView) -> Seq<char>
    decreases t,
{
    match t {
        TypeView::Null => kind_name(Kind::Null),
        TypeView::Bool => kind_name(Kind::Bool),
        TypeView::Int => kind_name(Kind::Int),
        TypeView::Uint => kind_name(Kind::Uint),
        TypeView::Double => kind_name(Kind::Double),
        TypeView::String => kind_name(Kind::String),
        TypeView::Bytes => kind_name(Kind::Bytes),
        TypeView::Struct(name) => name,
        TypeView::Duration => kind_name(Kind::Duration),
        TypeView::Timestamp => kind_name(Kind::Timestamp),
        TypeView::List(e) => "list<"@ + type_display(*e) + ">"@,
        TypeView::Mapping(k, v) => "map<"@ + map_key_display(k) + ", "@ + type_display(*v) + ">"@,
        TypeView::Unknown => kind_name(Kind::Unknown),
        TypeView::Type(p) => match p {
            Some(p) => "type<"@ + type_display(*p) + ">"@,
            None => "type"@,
        },
        TypeView::Error => kind_name(Kind::Error),
        TypeView::Any => kind_name(Kind::Any),
        TypeView::Dyn => kind_name(Kind::Dyn),
        TypeView::Opaque(name, ps) => if ps.len() == 0 {
            name
        } else {
            name + "<"@ + join_seq(types_display(ps), ", "@) + ">"@
        },
        TypeView::Optional(p) => "optional<"@ + type_display(*p) + ">"@,
        TypeView::BoolWrapper => kind_name(Kind::BoolWrapper),
        TypeView::IntWrapper => kind_name(Kind::IntWrapper),
        TypeView::UintWrapper => kind_name(Kind::UintWrapper),
        TypeView::DoubleWrapper => kind_name(Kind::DoubleWrapper),
        TypeView::StringWrapper => kind_name(Kind::StringWrapper),
        TypeView::BytesWrapper => kind_name(Kind::BytesWrapper),
        TypeView::TypeParam(name) => name,
        TypeView::Function(r, args) => "("@ + join_seq(types_display(args), ", "@) + ") -> "@
            + type_display(*r),
        TypeView::Enum(name) => name,
    }
}

/// The display texts of a sequence of types, element by element.
pub open spec fn types_display(ts: Seq<TypeView>) -> Seq<Seq<char>>
    decreases ts,
{
    if ts.len() == 0 {
        Seq::empty()
    } else {
        types_display(ts.drop_last()).push(type_display(ts.last()))
    }
}

/// The display texts of a sequence of types have its length, and each is the
/// display text of the type at the same place.
pub proof fn lemma_types_display(ts: Seq<TypeView>)
    ensures
        types_display(ts).len() == ts.len(),
        forall|i: int| 0 <= i < ts.len() ==> #[trigger] types_display(ts)[i] == type_display(ts[i]),
    decreases ts.len(),
{
    if ts.len() > 0 {
        lemma_types_display(ts.drop_last());
    }
}

/// The signature text of a function named `name` with the given argument types:
/// `name(A1, A2)`, or for a member function `(A1).name(A2)`.
pub open spec fn function_id(name: Seq<char>, member: bool, args: Seq<TypeView>) -> Seq<char> {
    if member && args.len() > 0 {
        "("@ + type_display(args[0]) + ")."@ + name + "("@ + join_seq(
            types_display(args.subrange(1, args.len() as int)),
            ", "@,
        ) + ")"@
    } else {
        name + "("@ + join_seq(types_display(args), ", "@) + ")"@
    }
}

/// The display texts of a sequence of types, element by element.
fn types_to_strings(v: &Vec<ValueType>) -> (r: Vec<String>)
    ensures
        strings_view(r@) == types_display(view_types(v@)),
    decreases v, 1nat,
{
    let mut r: Vec<String> = Vec::new();
    let n = v.len();
    let mut i: usize = 0;
    while i < n
        invariant
            n == v.len(),
            0 <= i <= n,
            r@.len() == i,
            forall|j: int| 0 <= j < i ==> #[trigger] r@[j]@ == type_display(v@[j]@),
        decreases n - i,
    {
        let s = v[i].to_string();
        r.push(s);
        i += 1;
    }
    proof {
        lemma_view_types(v@);
        lemma_types_display(view_types(v@));
        assert forall|j: int| 0 <= j < n implies strings_view(r@)[j] == types_display(
            view_types(v@),
        )[j] by {
            assert(r@[j]@ == type_display(v@[j]@));
        }
        assert(strings_view(r@) =~= types_display(view_types(v@)));
    }
    r
}

impl MapKeyType {
    /// Returns the display text of this key type.
    pub fn to_string(&self) -> (r: String)
        ensures
            r@ == map_key_display(self@),
    {
        match self {
            MapKeyType::Bool => text("bool"),
            MapKeyType::Int => text("int"),
            MapKeyType::Uint => text("uint"),
            MapKeyType::String => text("string"),
            MapKeyType::Dyn => text("dyn"),
            MapKeyType::TypeParam(tp) => tp.name.clone(),
        }
    }
}

impl ValueType {
    /// Returns the display text of this type.
    pub fn to_string(&self) -> (r: String)
        ensures
            r@ == type_display(self@),
        decreases self, 0nat,
    {
        match self {
            ValueType::Struct(s) => s.name.clone(),
            ValueType::List(l) => {
                let e = l.element.to_string();
                concat(concat(text("list<"), e.as_str()), ">")
            },
            ValueType::Mapping(m) => {
                let k = m.key.to_string();
                let v = m.value.to_string();
                concat(concat(concat(concat(text("map<"), k.as_str()), ", "), v.as_str()), ">")
            },
            ValueType::Type(t) => match &t.parameter {
                Some(p) => {
                    let ps = p.to_string();
                    concat(concat(text("type<"), ps.as_str()), ">")
                },
                None => text("type"),
            },
            ValueType::Opaque(o) => {
                if o.parameters.len() == 0 {
                    proof {
                        lemma_view_types(o.parameters@);
                    }
                    o.name.clone()
                } else {
                    proof {
                        lemma_view_types(o.parameters@);
                    }
                    let parts = types_to_strings(&o.parameters);
                    let joined = join_strings(&parts, ", ");
                    concat(concat(concat(o.name.clone(), "<"), joined.as_str()), ">")
                }
            },
            ValueType::Optional(o) => {
                let p = o.parameter.to_string();
                concat(concat(text("optional<"), p.as_str()), ">")
            },
            ValueType::TypeParam(tp) => tp.name.clone(),
            ValueType::Function(f) => {
                let parts = types_to_strings(&f.arguments);
                let joined = join_strings(&parts, ", ");
                let res = f.result.to_string();
                concat(concat(concat(text("("), joined.as_str()), ") -> "), res.as_str())
            },
            ValueType::Enum(e) => e.name.clone(),
            _ => self.kind().to_string(),
        }
    }
}

impl StructType {
    /// Returns the display text: the name.
    pub fn to_string(&self) -> (r: String)
        ensures
            r@ == type_display(view_type(ValueType::Struct(*self))),
    {
        self.name.clone()
    }
}

impl EnumType {
    /// Returns the display text: the name.
    pub fn to_string(&self) -> (r: String)
        ensures
            r@ == type_display(view_type(ValueType::Enum(*self))),
    {
        self.name.clone()
    }
}

impl TypeParamType {
    /// Returns the display text: the name.
    pub fn to_string(&self) -> (r: String)
        ensures
            r@ == type_display(view_type(ValueType::TypeParam(*self))),
    {
        self.name.clone()
    }
}

impl ListType {
    /// Returns the display text: `list<T>`.
    pub fn to_string(&self) -> (r: String)
        ensures
            r@ == type_display(self@),
    {
        let e = self.element.to_string();
        concat(concat(text("list<"), e.as_str()), ">")
    }
}

impl MapType {
    /// Returns the display text: `map<K, V>`.
    pub fn to_string(&self) -> (r: String)
        ensures
            r@ == type_display(self@),
    {
        let k = self.key.to_string();
        let v = self.value.to_string();
        concat(concat(concat(concat(text("map<"), k.as_str()), ", "), v.as_str()), ">")
    }
}

impl TypeType {
    /// Returns the display text: `type` or `type<T>`.
    pub fn to_string(&self) -> (r: String)
        ensures
            r@ == type_display(self@),
    {
        match &self.parameter {
            Some(p) => {
                let ps = p.to_string();
                concat(concat(text("type<"), ps.as_str()), ">")
            },
            None => text("type"),
        }
    }
}

impl OptionalType {
    /// Returns the display text: `optional<T>`.
    pub fn to_string(&self) -> (r: String)
        ensures
            r@ == type_display(self@),
    {
        let p = self.parameter.to_string();
        concat(concat(text("optional<"), p.as_str()), ">")
    }
}

impl OpaqueType {
    /// Returns the display text: the name, followed by `<T1, T2>` where there
    /// are type parameters.
    pub fn to_string(&self) -> (r: String)
        ensures
            r@ == type_display(self@),
    {
        proof {
            lemma_view_types(self.parameters@);
        }
        if self.parameters.len() == 0 {
            self.name.clone()
        } else {
            let parts = types_to_strings(&self.parameters);
            let joined = join_strings(&parts, ", ");
            concat(concat(concat(self.name.clone(), "<"), joined.as_str()), ">")
        }
    }
}

impl FunctionType {
    /// Returns the display text: `(A1, A2) -> R`.
    pub fn to_string(&self) -> (r: String)
        ensures
            r@ == type_display(self@),
    {
        let parts = types_to_strings(&self.arguments);
        let joined = join_strings(&parts, ", ");
        let res = self.result.to_string();
        concat(concat(concat(text("("), joined.as_str()), ") -> "), res.as_str())
    }

    /// Returns the signature text of a function named `name` of this type, by
    /// which overloads are told apart: `name(A1, A2)`, or, for a member
    /// function with at least one argument, `(A1).name(A2)`.
    pub fn id(&self, name: &str, member: bool) -> (r: String)
        ensures
            r@ == function_id(name@, member, view_types(self.arguments@)),
    {
        let all = types_to_strings(&self.arguments);
        proof {
            lemma_view_types(self.arguments@);
            lemma_types_display(view_types(self.arguments@));
        }
        if member && self.arguments.len() > 0 {
            let n = all.len();
            let mut rest: Vec<String> = Vec::new();
            let mut i: usize = 1;
            while i < n
                invariant
                    n == all@.len(),
                    1 <= i <= n,
                    rest@.len() == i - 1,
                    forall|j: int| 0 <= j < i - 1 ==> #[trigger] rest@[j]@ == all@[j + 1]@,
                decreases n - i,
            {
                rest.push(all[i].clone());
                i += 1;
            }
            let ghost args = view_types(self.arguments@);
            proof {
                lemma_types_display(args.subrange(1, args.len() as int));
                assert forall|j: int| 0 <= j < n - 1 implies strings_view(rest@)[j]
                    == types_display(args.subrange(1, args.len() as int))[j] by {
                    assert(rest@[j]@ == all@[j + 1]@);
                    assert(strings_view(all@)[j + 1] == all@[j + 1]@);
                }
                assert(strings_view(rest@) =~= types_display(args.subrange(1, args.len() as int)));
                assert(strings_view(all@)[0] == all@[0]@);
            }
            let joined = join_strings(&rest, ", ");
            let first = all[0].clone();
            concat(
                concat(
                    concat(concat(concat(concat(text("("), first.as_str()), ")."), name), "("),
                    joined.as_str(),
                ),
                ")",
            )
        } else {
            let joined = join_strings(&all, ", ");
            concat(concat(concat(text(name), "("), joined.as_str()), ")")
        }
    }
}

} // verus!
