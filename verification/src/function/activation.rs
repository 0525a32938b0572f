//! What an activation offers the runtime: for each registered function name,
//! its groups of overloads and where their implementations come from, with
//! bound functions replacing registered implementations by name; and the
//! choice of the overload that the runtime asks for by signature text.
use vstd::prelude::*;
use crate::error::{Code, Error};
use crate::kind::Kind;
use crate::seq_search::{first_index, lemma_first_index_at, lemma_first_index_none};
use crate::text::strings_view;
use crate::types::{function_id, view_types, FunctionType};
use super::overload::{
    FunctionDeclOrImpl, FunctionKindOverload, FunctionOverloads, FunctionTypeOverload, KindOverloadView,
};
use super::registry::{name_is, view_named, FunctionBindings, FunctionRegistry, NamedOverloadsView};

verus! {

/// One function that an activation offers: the descriptor under which the
/// runtime finds it (name, receiver style, argument kinds) and where its
/// implementations are: the table (registry or bindings), the index of the
/// name's entry in that table, the index of the group within the entry, and
/// the indices of the group's entries that serve as implementations.
#[derive(Debug)]
pub struct ActivationGroup {
    /// The function name.
    pub name: String,
    /// Whether calls are receiver-style (member functions).
    pub receiver_style: bool,
    /// The argument kinds.
    pub kinds: Vec<Kind>,
    /// Whether the implementations are bound ones rather than registered ones.
    pub from_bindings: bool,
    /// The index of the name's entry in its table.
    pub table: usize,
    /// The index of the group within that entry's overloads.
    pub group: usize,
    /// The indices of the entries of that group that serve as implementations.
    pub entries: Vec<usize>,
}

/// The model of an [`ActivationGroup`].
pub ghost struct ActivationGroupView {
    pub name: Seq<char>,
    pub receiver_style: bool,
    pub kinds: Seq<Kind>,
    pub from_bindings: bool,
    pub table: int,
    pub group: int,
    pub entries: Seq<int>,
}

/// The indices as integers.
pub open spec fn view_indices(s: Seq<usize>) -> Seq<int> {
    s.map_values(|j: usize| j as int)
}

impl View for ActivationGroup {
    type V = ActivationGroupView;

    open spec fn view(&self) -> ActivationGroupView {
        ActivationGroupView {
            name: self.name@,
            receiver_style: self.receiver_style,
            kinds: self.kinds@,
            from_bindings: self.from_bindings,
            table: self.table as int,
            group: self.group as int,
            entries: view_indices(self.entries@),
        }
    }
}

/// The models of a sequence of activation groups.
pub open spec fn view_groups(s: Seq<ActivationGroup>) -> Seq<ActivationGroupView> {
    s.map_values(|g: ActivationGroup| g@)
}

/// The indices, in order, of the entries that have an implementation.
pub open spec fn impl_indices<I>(es: Seq<FunctionDeclOrImpl<I>>) -> Seq<int>
    decreases es.len(),
{
    if es.len() == 0 {
        Seq::empty()
    } else if es.last().spec_impl().is_some() {
        impl_indices(es.drop_last()).push(es.len() - 1)
    } else {
        impl_indices(es.drop_last())
    }
}

/// The implementation indices of a group are exactly the indices of its
/// entries that have an implementation, each once and in increasing order.
pub proof fn law_impl_indices<I>(es: Seq<FunctionDeclOrImpl<I>>)
    ensures
        forall|j: int|
            #[trigger] impl_indices(es).contains(j) <==> (0 <= j < es.len() && es[j].spec_impl().is_some()),
        forall|a: int, b: int|
            0 <= a < b < impl_indices(es).len() ==> #[trigger] impl_indices(es)[a] < #[trigger] impl_indices(
                es,
            )[b],
    decreases es.len(),
{
    if es.len() > 0 {
        let d = es.drop_last();
        law_impl_indices(d);
        let pd = impl_indices(d);
        let p = impl_indices(es);
        let last = es.len() - 1;
        assert forall|j: int| #[trigger] p.contains(j) <==> (0 <= j < es.len() && es[j].spec_impl().is_some()) by {
            if j < last && 0 <= j {
                assert(d[j] == es[j]);
            }
            if p.contains(j) {
                let k = choose|k: int| 0 <= k < p.len() && p[k] == j;
                if k < pd.len() {
                    assert(p[k] == pd[k]);
                    assert(pd.contains(j));
                    assert(d[j] == es[j]);
                }
            }
            if 0 <= j < es.len() && es[j].spec_impl().is_some() {
                if j < last {
                    assert(pd.contains(j));
                    let k = choose|k: int| 0 <= k < pd.len() && pd[k] == j;
                    assert(p[k] == j);
                } else {
                    assert(p[pd.len() as int] == j);
                }
            }
        }
        assert forall|a: int, b: int| 0 <= a < b < p.len() implies #[trigger] p[a] < #[trigger] p[b] by {
            if b < pd.len() {
                assert(p[a] == pd[a] && p[b] == pd[b]);
            } else {
                assert(p[a] == pd[a]);
                assert(pd.contains(pd[a]));
                assert(p[b] == last);
            }
        }
    }
}

/// The groups of a registered name `name` at index `t` of the registry: one
/// per group of overloads, each served by the entries that have an
/// implementation.
pub open spec fn registry_groups<I>(
    name: Seq<char>,
    t: int,
    groups: Seq<KindOverloadView<FunctionDeclOrImpl<I>>>,
) -> Seq<ActivationGroupView> {
    Seq::new(
        groups.len(),
        |k: int|
            ActivationGroupView {
                name,
                receiver_style: groups[k].member,
                kinds: groups[k].kinds,
                from_bindings: false,
                table: t,
                group: k,
                entries: impl_indices(groups[k].entries),
            },
    )
}

/// The groups of a bound name `name` at index `b` of the bindings: one per
/// group of bound overloads, each served by all its entries.
pub open spec fn binding_groups<F>(name: Seq<char>, b: int, groups: Seq<KindOverloadView<F>>) -> Seq<
    ActivationGroupView,
> {
    Seq::new(
        groups.len(),
        |k: int|
            ActivationGroupView {
                name,
                receiver_style: groups[k].member,
                kinds: groups[k].kinds,
                from_bindings: true,
                table: b,
                group: k,
                entries: Seq::new(groups[k].entries.len(), |j: int| j),
            },
    )
}

/// The groups offered for the registered name at index `i`: those of its
/// bindings when the name is bound, else those of the registry.
pub open spec fn name_groups<I, F>(
    registry: NamedOverloadsView<FunctionDeclOrImpl<I>>,
    bindings: NamedOverloadsView<F>,
    i: int,
) -> Seq<ActivationGroupView> {
    let name = registry[i].0;
    match first_index(bindings, name_is::<F>(name)) {
        Some(b) => binding_groups(name, b, bindings[b].1),
        None => registry_groups(name, i, registry[i].1),
    }
}

/// What a registered name offers: when the name is not bound, one group per
/// registered group, with the same receiver style and kinds, served by exactly
/// its implemented entries; when it is bound, one group per bound group, with
/// the same receiver style and kinds, served by every bound entry.
pub proof fn law_name_groups<I, F>(
    registry: NamedOverloadsView<FunctionDeclOrImpl<I>>,
    bindings: NamedOverloadsView<F>,
    i: int,
)
    requires
        0 <= i < registry.len(),
    ensures
        ({
            let name = registry[i].0;
            let offered = name_groups(registry, bindings, i);
            match first_index(bindings, name_is::<F>(name)) {
                None => {
                    &&& offered.len() == registry[i].1.len()
                    &&& forall|k: int, j: int|
                        0 <= k < offered.len() ==> {
                            &&& (#[trigger] offered[k]).name == name
                            &&& !offered[k].from_bindings
                            &&& offered[k].receiver_style == registry[i].1[k].member
                            &&& offered[k].kinds == registry[i].1[k].kinds
                            &&& (#[trigger] offered[k].entries.contains(j) <==> (0 <= j
                                < registry[i].1[k].entries.len()
                                && registry[i].1[k].entries[j].spec_impl().is_some()))
                        }
                },
                Some(b) => {
                    &&& offered.len() == bindings[b].1.len()
                    &&& forall|k: int, j: int|
                        0 <= k < offered.len() ==> {
                            &&& (#[trigger] offered[k]).name == name
                            &&& offered[k].from_bindings
                            &&& offered[k].receiver_style == bindings[b].1[k].member
                            &&& offered[k].kinds == bindings[b].1[k].kinds
                            &&& (#[trigger] offered[k].entries.contains(j) <==> 0 <= j
                                < bindings[b].1[k].entries.len())
                        }
                },
            }
        }),
{
    let name = registry[i].0;
    let offered = name_groups(registry, bindings, i);
    match first_index(bindings, name_is::<F>(name)) {
        None => {
            assert forall|k: int, j: int| 0 <= k < offered.len() implies {
                &&& (#[trigger] offered[k]).name == name
                &&& !offered[k].from_bindings
                &&& offered[k].receiver_style == registry[i].1[k].member
                &&& offered[k].kinds == registry[i].1[k].kinds
                &&& (#[trigger] offered[k].entries.contains(j) <==> (0 <= j
                    < registry[i].1[k].entries.len()
                    && registry[i].1[k].entries[j].spec_impl().is_some()))
            } by {
                law_impl_indices(registry[i].1[k].entries);
            }
        },
        Some(b) => {
            assert forall|k: int, j: int| 0 <= k < offered.len() implies {
                &&& (#[trigger] offered[k]).name == name
                &&& offered[k].from_bindings
                &&& offered[k].receiver_style == bindings[b].1[k].member
                &&& offered[k].kinds == bindings[b].1[k].kinds
                &&& (#[trigger] offered[k].entries.contains(j) <==> 0 <= j
                    < bindings[b].1[k].entries.len())
            } by {
                let es = offered[k].entries;
                if 0 <= j < bindings[b].1[k].entries.len() {
                    assert(es[j] == j);
                }
            }
        },
    }
}

/// The groups an activation offers, registered name after registered name;
/// bound names that are not registered are not offered.
pub open spec fn activation_plan_spec<I, F>(
    registry: NamedOverloadsView<FunctionDeclOrImpl<I>>,
    bindings: NamedOverloadsView<F>,
) -> Seq<ActivationGroupView>
    decreases registry.len(),
{
    if registry.len() == 0 {
        Seq::empty()
    } else {
        activation_plan_spec(registry.drop_last(), bindings) + name_groups(
            registry,
            bindings,
            registry.len() - 1,
        )
    }
}

fn copy_kinds(v: &Vec<Kind>) -> (r: Vec<Kind>)
    ensures
        r@ == v@,
{
    let n = v.len();
    let mut r: Vec<Kind> = Vec::new();
    let mut i: usize = 0;
    while i < n
        invariant
            n == v@.len(),
            0 <= i <= n,
            r@ == v@.take(i as int),
        decreases n - i,
    {
        r.push(v[i]);
        assert(r@ =~= v@.take(i + 1));
        i += 1;
    }
    assert(v@.take(n as int) =~= v@);
    r
}

fn impl_indices_of<I>(g: &FunctionKindOverload<FunctionDeclOrImpl<I>>) -> (r: Vec<usize>)
    ensures
        view_indices(r@) == impl_indices(g@.entries),
{
    let es = g.entries();
    let n = es.len();
    let mut r: Vec<usize> = Vec::new();
    let mut i: usize = 0;
    assert(es@.take(0) =~= Seq::<FunctionDeclOrImpl<I>>::empty());
    assert(view_indices(r@) =~= Seq::<int>::empty());
    while i < n
        invariant
            n == es@.len(),
            es@ == g@.entries,
            0 <= i <= n,
            view_indices(r@) == impl_indices(es@.take(i as int)),
        decreases n - i,
    {
        let ghost before = r@;
        proof {
            assert(es@.take(i + 1).drop_last() =~= es@.take(i as int));
            assert(es@.take(i + 1).last() == es@[i as int]);
        }
        if es[i].is_impl() {
            r.push(i);
            assert(view_indices(r@) =~= view_indices(before).push(i as int));
        }
        i += 1;
    }
    assert(es@.take(n as int) =~= es@);
    r
}

fn all_indices(n: usize) -> (r: Vec<usize>)
    ensures
        view_indices(r@) == Seq::new(n as nat, |j: int| j),
{
    let mut r: Vec<usize> = Vec::new();
    let mut i: usize = 0;
    while i < n
        invariant
            0 <= i <= n,
            r@.len() == i,
            forall|j: int| 0 <= j < i ==> r@[j] == j,
        decreases n - i,
    {
        r.push(i);
        i += 1;
    }
    assert(view_indices(r@) =~= Seq::new(n as nat, |j: int| j));
    r
}

fn registry_plan<I>(name: &String, t: usize, o: &FunctionOverloads<FunctionDeclOrImpl<I>>) -> (r: Vec<
    ActivationGroup,
>)
    ensures
        view_groups(r@) == registry_groups(name@, t as int, o@),
{
    let groups = o.entries();
    let ghost gv = groups@.map_values(|g: FunctionKindOverload<FunctionDeclOrImpl<I>>| g@);
    let ghost spec = registry_groups(name@, t as int, o@);
    let m = groups.len();
    let mut r: Vec<ActivationGroup> = Vec::new();
    let mut k: usize = 0;
    while k < m
        invariant
            m == groups@.len(),
            gv == groups@.map_values(|g: FunctionKindOverload<FunctionDeclOrImpl<I>>| g@),
            gv == o@,
            spec == registry_groups(name@, t as int, o@),
            0 <= k <= m,
            r@.len() == k,
            forall|j: int| 0 <= j < k ==> #[trigger] r@[j]@ == spec[j],
        decreases m - k,
    {
        let g = &groups[k];
        let kinds = copy_kinds(g.argument_kinds());
        let entries = impl_indices_of(g);
        let a = ActivationGroup {
            name: name.clone(),
            receiver_style: g.member(),
            kinds,
            from_bindings: false,
            table: t,
            group: k,
            entries,
        };
        proof {
            assert(gv[k as int] == groups@[k as int]@);
        }
        r.push(a);
        k += 1;
    }
    assert(view_groups(r@) =~= spec);
    r
}

fn binding_plan<F: FunctionTypeOverload>(name: &String, b: usize, o: &FunctionOverloads<F>) -> (r: Vec<ActivationGroup>)
    ensures
        view_groups(r@) == binding_groups(name@, b as int, o@),
{
    let groups = o.entries();
    let ghost gv = groups@.map_values(|g: FunctionKindOverload<F>| g@);
    let ghost spec = binding_groups(name@, b as int, o@);
    let m = groups.len();
    let mut r: Vec<ActivationGroup> = Vec::new();
    let mut k: usize = 0;
    while k < m
        invariant
            m == groups@.len(),
            gv == groups@.map_values(|g: FunctionKindOverload<F>| g@),
            gv == o@,
            spec == binding_groups(name@, b as int, o@),
            0 <= k <= m,
            r@.len() == k,
            forall|j: int| 0 <= j < k ==> #[trigger] r@[j]@ == spec[j],
        decreases m - k,
    {
        let g = &groups[k];
        let kinds = copy_kinds(g.argument_kinds());
        let entries = all_indices(g.entries().len());
        let a = ActivationGroup {
            name: name.clone(),
            receiver_style: g.member(),
            kinds,
            from_bindings: true,
            table: b,
            group: k,
            entries,
        };
        proof {
            assert(gv[k as int] == groups@[k as int]@);
        }
        r.push(a);
        k += 1;
    }
    assert(view_groups(r@) =~= spec);
    r
}

fn name_position<T>(entries: &[(String, FunctionOverloads<T>)], name: &String) -> (r: Option<usize>)
    ensures
        match r {
            Some(k) => first_index(view_named(entries@), name_is::<T>(name@)) == Some(k as int)
                && k < entries@.len(),
            None => first_index(view_named(entries@), name_is::<T>(name@)).is_none(),
        },
{
    let ghost p = name_is::<T>(name@);
    let n = entries.len();
    let mut i: usize = 0;
    while i < n
        invariant
            n == entries@.len(),
            0 <= i <= n,
            p == name_is::<T>(name@),
            forall|j: int| 0 <= j < i ==> !p(#[trigger] view_named(entries@)[j]),
        decreases n - i,
    {
        if entries[i].0 == *name {
            proof {
                lemma_first_index_at(view_named(entries@), p, i as int);
            }
            return Some(i);
        }
        i += 1;
    }
    proof {
        lemma_first_index_none(view_named(entries@), p);
    }
    None
}

impl<I> FunctionRegistry<I> {
    /// Returns the functions that an activation with the bound functions
    /// `bindings` offers the runtime: for each registered name in order, the
    /// groups of its bound overloads (all their entries) when the name is
    /// bound, which replace the registered ones; else the groups of its
    /// registered overloads, each served by its entries with an
    /// implementation. Names that are bound but not registered are not
    /// offered.
    pub fn activation_plan<F: FunctionTypeOverload>(&self, bindings: &FunctionBindings<F>) -> (r: Vec<ActivationGroup>)
        ensures
            view_groups(r@) == activation_plan_spec(self@, bindings@),
    {
        let entries = self.entries();
        let bound = bindings.entries();
        let ghost ev = view_named(entries@);
        let ghost bv = view_named(bound@);
        let n = entries.len();
        let mut r: Vec<ActivationGroup> = Vec::new();
        let mut i: usize = 0;
        assert(ev.take(0) =~= NamedOverloadsView::<FunctionDeclOrImpl<I>>::empty());
        assert(view_groups(r@) =~= Seq::<ActivationGroupView>::empty());
        while i < n
            invariant
                n == entries@.len(),
                ev == view_named(entries@),
                ev == self@,
                bv == view_named(bound@),
                bv == bindings@,
                0 <= i <= n,
                view_groups(r@) == activation_plan_spec(ev.take(i as int), bv),
            decreases n - i,
        {
            let name = &entries[i].0;
            let mut part = match name_position(bound, name) {
                Some(b) => binding_plan(name, b, &bound[b].1),
                None => registry_plan(name, i, &entries[i].1),
            };
            let ghost before = r@;
            let ghost pv = view_groups(part@);
            r.append(&mut part);
            proof {
                let t = ev.take(i + 1);
                assert(t.drop_last() =~= ev.take(i as int));
                assert(t[i as int] == ev[i as int]);
                assert(ev[i as int] == (entries@[i as int].0@, entries@[i as int].1@));
                assert(pv == name_groups(t, bv, i as int));
                assert(view_groups(r@) =~= view_groups(before) + pv);
            }
            i += 1;
        }
        assert(ev.take(n as int) =~= ev);
        r
    }
}

/// Whether the signature text of a function type, for a function named
/// `name` of the given call style, is one of `ids`.
pub open spec fn overload_matches(name: Seq<char>, member: bool, ids: Seq<Seq<char>>) -> spec_fn(
    FunctionType,
) -> bool {
    |t: FunctionType| ids.contains(function_id(name, member, view_types(t.arguments@)))
}

/// Chooses the overload that the runtime asks for: the first of `types` whose
/// signature text, for a function named `name` of the given call style, is
/// one of `ids`; fails with [`Code::InvalidArgument`] ("No matching overload
/// found") when there is none.
pub fn select_overload(name: &str, member: bool, types: &[FunctionType], ids: &[String]) -> (r: Result<
    usize,
    Error,
>)
    ensures
        match first_index(types@, overload_matches(name@, member, strings_view(ids@))) {
            Some(i) => r matches Ok(k) && k == i,
            None => r matches Err(e) && e@ == (Code::InvalidArgument, "No matching overload found"@),
        },
{
    let ghost p = overload_matches(name@, member, strings_view(ids@));
    let n = types.len();
    let m = ids.len();
    let mut i: usize = 0;
    while i < n
        invariant
            n == types@.len(),
            m == ids@.len(),
            0 <= i <= n,
            p == overload_matches(name@, member, strings_view(ids@)),
            forall|j: int| 0 <= j < i ==> !p(#[trigger] types@[j]),
        decreases n - i,
    {
        let target = types[i].id(name, member);
        let mut j: usize = 0;
        let mut found = false;
        while j < m
            invariant
                m == ids@.len(),
                0 <= j <= m,
                found ==> strings_view(ids@).contains(target@),
                !found ==> forall|q: int| 0 <= q < j ==> strings_view(ids@)[q] != target@,
            ensures
                found ==> strings_view(ids@).contains(target@),
                !found ==> forall|q: int| 0 <= q < m ==> strings_view(ids@)[q] != target@,
            decreases m - j,
        {
            if ids[j] == target {
                assert(strings_view(ids@)[j as int] == target@);
                found = true;
                break;
            }
            j += 1;
        }
        if found {
            proof {
                lemma_first_index_at(types@, p, i as int);
            }
            return Ok(i);
        }
        proof {
            let sv = strings_view(ids@);
            assert(sv.len() == m);
            assert(target@ == function_id(name@, member, view_types(types@[i as int].arguments@)));
            if sv.contains(target@) {
                let q = choose|q: int| 0 <= q < sv.len() && sv[q] == target@;
                assert(sv[q] != target@);
            }
            assert(!p(types@[i as int]));
        }
        i += 1;
    }
    proof {
        lemma_first_index_none(types@, p);
    }
    Err(Error::invalid_argument("No matching overload found"))
}

} // verus!
