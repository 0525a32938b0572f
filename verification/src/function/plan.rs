//! What an environment's compiler and runtime are told of the registered
//! functions: the overload declarations the type checker receives, and the
//! function descriptors under which the runtime finds implementations.
use vstd::prelude::*;
use crate::kind::Kind;
use crate::types::{duplicate_types, function_id, lemma_view_types, view_types, TypeView, ValueType};
use super::overload::{FunctionDeclOrImpl, FunctionKindOverload, FunctionOverloads, KindOverloadView};
use super::registry::{FunctionRegistry, NamedOverloadsView};

verus! {

/// One overload as the type checker is told of it: its signature text (by
/// which overloads are told apart), whether it is a member function, and its
/// result and argument types.
#[derive(Debug)]
pub struct OverloadDecl {
    /// The signature text, as [`crate::FunctionType::id`] gives it.
    pub id: String,
    /// Whether the overload is a member function.
    pub member: bool,
    /// The result type.
    pub result: ValueType,
    /// The argument types.
    pub arguments: Vec<ValueType>,
}

/// The model of an overload declaration.
pub ghost struct OverloadDeclView {
    pub id: Seq<char>,
    pub member: bool,
    pub result: TypeView,
    pub arguments: Seq<TypeView>,
}

impl View for OverloadDecl {
    type V = OverloadDeclView;

    open spec fn view(&self) -> OverloadDeclView {
        OverloadDeclView {
            id: self.id@,
            member: self.member,
            result: self.result@,
            arguments: view_types(self.arguments@),
        }
    }
}

/// The models of a sequence of overload declarations.
pub open spec fn view_decls(s: Seq<OverloadDecl>) -> Seq<OverloadDeclView> {
    s.map_values(|d: OverloadDecl| d@)
}

/// The declaration of one entry registered under `name`.
pub open spec fn entry_decl<I>(name: Seq<char>, member: bool, e: FunctionDeclOrImpl<I>) -> OverloadDeclView {
    let args = view_types(e.spec_decl().arguments@);
    OverloadDeclView {
        id: function_id(name, member, args),
        member,
        result: e.spec_decl().result@,
        arguments: args,
    }
}

/// The declarations of one group, entry by entry.
pub open spec fn group_decls<I>(name: Seq<char>, g: KindOverloadView<FunctionDeclOrImpl<I>>) -> Seq<
    OverloadDeclView,
> {
    g.entries.map_values(|e: FunctionDeclOrImpl<I>| entry_decl(name, g.member, e))
}

/// The declarations of an overload table, group after group.
pub open spec fn overload_decls<I>(name: Seq<char>, groups: Seq<KindOverloadView<FunctionDeclOrImpl<I>>>) -> Seq<
    OverloadDeclView,
>
    decreases groups.len(),
{
    if groups.len() == 0 {
        Seq::empty()
    } else {
        overload_decls(name, groups.drop_last()) + group_decls(name, groups.last())
    }
}

/// A function descriptor of the runtime: a name, whether calls are
/// receiver-style, and the argument kinds.
#[derive(Debug)]
pub struct FunctionDescriptor {
    /// The function name.
    pub name: String,
    /// Whether calls are receiver-style (member functions).
    pub receiver_style: bool,
    /// The argument kinds.
    pub kinds: Vec<Kind>,
}

impl View for FunctionDescriptor {
    type V = (Seq<char>, bool, Seq<Kind>);

    open spec fn view(&self) -> (Seq<char>, bool, Seq<Kind>) {
        (self.name@, self.receiver_style, self.kinds@)
    }
}

/// The descriptors of one overload table: one per group.
pub open spec fn table_descriptors<T>(name: Seq<char>, groups: Seq<KindOverloadView<T>>) -> Seq<
    (Seq<char>, bool, Seq<Kind>),
> {
    groups.map_values(|g: KindOverloadView<T>| (name, g.member, g.kinds))
}

/// The descriptors of a table of functions by name, name after name.
pub open spec fn named_descriptors<T>(entries: NamedOverloadsView<T>) -> Seq<(Seq<char>, bool, Seq<Kind>)>
    decreases entries.len(),
{
    if entries.len() == 0 {
        Seq::empty()
    } else {
        named_descriptors(entries.drop_last()) + table_descriptors(
            entries.last().0,
            entries.last().1,
        )
    }
}

fn group_declarations<I>(name: &str, g: &FunctionKindOverload<FunctionDeclOrImpl<I>>) -> (r: Vec<
    OverloadDecl,
>)
    ensures
        view_decls(r@) == group_decls(name@, g@),
{
    let member = g.member();
    let entries = g.entries();
    let n = entries.len();
    let mut r: Vec<OverloadDecl> = Vec::new();
    let mut i: usize = 0;
    while i < n
        invariant
            n == entries@.len(),
            entries@ == g@.entries,
            member == g@.member,
            0 <= i <= n,
            r@.len() == i,
            forall|j: int| 0 <= j < i ==> #[trigger] r@[j]@ == entry_decl(name@, member, entries@[j]),
        decreases n - i,
    {
        let decl = entries[i].decl();
        let id = decl.id(name, member);
        let result = decl.result().duplicate();
        let arguments = duplicate_types(&decl.arguments);
        r.push(OverloadDecl { id, member, result, arguments });
        i += 1;
    }
    assert(view_decls(r@) =~= group_decls(name@, g@));
    r
}

fn table_declarations<I>(name: &str, o: &FunctionOverloads<FunctionDeclOrImpl<I>>) -> (r: Vec<OverloadDecl>)
    ensures
        view_decls(r@) == overload_decls(name@, o@),
{
    let groups = o.entries();
    let ghost gv = groups@.map_values(|g: FunctionKindOverload<FunctionDeclOrImpl<I>>| g@);
    let n = groups.len();
    let mut r: Vec<OverloadDecl> = Vec::new();
    let mut i: usize = 0;
    assert(gv.take(0) =~= Seq::<KindOverloadView<FunctionDeclOrImpl<I>>>::empty());
    while i < n
        invariant
            n == groups@.len(),
            gv == groups@.map_values(|g: FunctionKindOverload<FunctionDeclOrImpl<I>>| g@),
            gv == o@,
            0 <= i <= n,
            view_decls(r@) == overload_decls(name@, gv.take(i as int)),
        decreases n - i,
    {
        let mut part = group_declarations(name, &groups[i]);
        let ghost before = r@;
        r.append(&mut part);
        proof {
            assert(gv.take(i + 1).drop_last() =~= gv.take(i as int));
            assert(gv.take(i + 1).last() == groups@[i as int]@);
            assert(view_decls(r@) =~= view_decls(before) + group_decls(name@, groups@[i as int]@));
        }
        i += 1;
    }
    assert(gv.take(n as int) =~= gv);
    r
}

fn copy_kinds(v: &Vec<Kind>) -> (r: Vec<Kind>)
    ensures
        r@ == v@,
{
    let n = v.len();
    let mut r: Vec<Kind> = Vec::new();
    let mut i: usize = 0;
    while i < n
        invariant
            n == v@.len(),
            0 <= i <= n,
            r@ == v@.take(i as int),
        decreases n - i,
    {
        r.push(v[i]);
        assert(r@ =~= v@.take(i + 1));
        i += 1;
    }
    assert(v@.take(n as int) =~= v@);
    r
}

impl<I> FunctionRegistry<I> {
    /// Returns, name by name, the overload declarations that the type checker
    /// is given for the registered functions.
    pub fn checker_declarations(&self) -> (r: Vec<(String, Vec<OverloadDecl>)>)
        ensures
            r@.len() == self@.len(),
            forall|i: int|
                0 <= i < self@.len() ==> (#[trigger] r@[i]).0@ == self@[i].0 && view_decls(r@[i].1@)
                    == overload_decls(self@[i].0, self@[i].1),
    {
        let entries = self.entries();
        let n = entries.len();
        let mut r: Vec<(String, Vec<OverloadDecl>)> = Vec::new();
        let mut i: usize = 0;
        while i < n
            invariant
                n == entries@.len(),
                super::registry::view_named(entries@) == self@,
                0 <= i <= n,
                r@.len() == i,
                forall|j: int|
                    0 <= j < i ==> (#[trigger] r@[j]).0@ == self@[j].0 && view_decls(r@[j].1@)
                        == overload_decls(self@[j].0, self@[j].1),
            decreases n - i,
        {
            let name = entries[i].0.as_str();
            let decls = table_declarations(name, &entries[i].1);
            r.push((entries[i].0.clone(), decls));
            i += 1;
        }
        r
    }

    /// Returns the function descriptors under which the runtime finds the
    /// registered functions: one per name and group of overloads.
    pub fn runtime_descriptors(&self) -> (r: Vec<FunctionDescriptor>)
        ensures
            r@.map_values(|d: FunctionDescriptor| d@) == named_descriptors(self@),
    {
        let entries = self.entries();
        let ghost ev = super::registry::view_named(entries@);
        let n = entries.len();
        let mut r: Vec<FunctionDescriptor> = Vec::new();
        let mut i: usize = 0;
        assert(ev.take(0) =~= NamedOverloadsView::<FunctionDeclOrImpl<I>>::empty());
        while i < n
            invariant
                n == entries@.len(),
                ev == super::registry::view_named(entries@),
                ev == self@,
                0 <= i <= n,
                r@.map_values(|d: FunctionDescriptor| d@) == named_descriptors(ev.take(i as int)),
            decreases n - i,
        {
            let name = &entries[i].0;
            let groups = entries[i].1.entries();
            let ghost before = r@.map_values(|d: FunctionDescriptor| d@);
            let ghost gv = groups@.map_values(|g: FunctionKindOverload<FunctionDeclOrImpl<I>>| g@);
            let m = groups.len();
            let mut k: usize = 0;
            while k < m
                invariant
                    m == groups@.len(),
                    gv == groups@.map_values(|g: FunctionKindOverload<FunctionDeclOrImpl<I>>| g@),
                    0 <= k <= m,
                    r@.map_values(|d: FunctionDescriptor| d@) == before + table_descriptors(
                        name@,
                        gv.take(k as int),
                    ),
                decreases m - k,
            {
                let kinds = copy_kinds(groups[k].argument_kinds());
                let d = FunctionDescriptor {
                    name: name.clone(),
                    receiver_style: groups[k].member(),
                    kinds,
                };
                let ghost dv = d@;
                let ghost old_r = r@;
                r.push(d);
                proof {
                    assert(gv[k as int] == groups@[k as int]@);
                    assert(dv == (name@, gv[k as int].member, gv[k as int].kinds));
                    assert(r@.map_values(|d: FunctionDescriptor| d@) =~= old_r.map_values(
                        |d: FunctionDescriptor| d@,
                    ).push(dv));
                    assert(table_descriptors(name@, gv.take(k + 1)) =~= table_descriptors(
                        name@,
                        gv.take(k as int),
                    ).push(dv));
                    assert(r@.map_values(|d: FunctionDescriptor| d@) =~= before + table_descriptors(
                        name@,
                        gv.take(k + 1),
                    ));
                }
                k += 1;
            }
            proof {
                assert(gv.take(m as int) =~= gv);
                assert(ev.take(i + 1).drop_last() =~= ev.take(i as int));
                assert(ev.take(i + 1).last() == ev[i as int]);
                assert(gv == entries@[i as int].1@);
            }
            i += 1;
        }
        assert(ev.take(n as int) =~= ev);
        r
    }
}

} // verus!
