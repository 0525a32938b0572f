//! Properties of overload tables that hold across their operations.
use vstd::prelude::*;
use crate::kind::Kind;
use crate::seq_search::{first_index, lemma_first_index, lemma_first_index_at};
use crate::types::{kinds_of, lemma_view_types, FunctionType};
use super::registry::{name_is, named_after_add, names_distinct, slot_for, NamedOverloadsView};
use super::overload::{
    decl_entry, decl_overloads_wf, group_after_add, group_is, group_wf, impl_entry,
    lemma_entry_parts, member_groups_have_receiver, overloads_after_add, overloads_after_remove,
    overloads_wf, signature_is, FunctionDeclOrImpl, FunctionTypeOverload, KindOverloadView,
};

verus! {

/// An empty overload table meets the table invariant.
pub proof fn law_empty_table_wf<T: FunctionTypeOverload>()
    ensures
        overloads_wf(Seq::<KindOverloadView<T>>::empty()),
{
}

/// Adding an entry to a group keeps the entries' argument types distinct.
pub proof fn law_group_add_keeps_wf<T: FunctionTypeOverload>(g: KindOverloadView<T>, entry: T)
    requires
        group_wf(g),
        group_after_add(g, entry).is_some(),
    ensures
        group_wf(group_after_add(g, entry).unwrap()),
{
    let p = signature_is::<T>(entry.spec_arguments());
    lemma_first_index(g.entries, p);
    let n = group_after_add(g, entry).unwrap();
    assert forall|a: int, b: int| 0 <= a < b < n.entries.len() implies #[trigger] n.entries[a].spec_arguments()
        != #[trigger] n.entries[b].spec_arguments() by {
        if b == g.entries.len() {
            assert(!p(g.entries[a]));
        } else {
            assert(n.entries[a] == g.entries[a]);
            assert(n.entries[b] == g.entries[b]);
        }
    }
}

/// Adding an entry keeps the table invariant: groups stay distinct, entries
/// within a group stay distinct, and every entry's argument kinds stay those of
/// its group.
pub proof fn law_add_keeps_wf<T: FunctionTypeOverload>(
    groups: Seq<KindOverloadView<T>>,
    member: bool,
    entry: T,
)
    requires
        overloads_wf(groups),
        overloads_after_add(groups, member, entry).is_some(),
    ensures
        overloads_wf(overloads_after_add(groups, member, entry).unwrap()),
{
    let kinds = kinds_of(entry.spec_arguments());
    let p = group_is::<T>(member, kinds);
    lemma_first_index(groups, p);
    let result = overloads_after_add(groups, member, entry).unwrap();
    match first_index(groups, p) {
        Some(i) => {
            let g = groups[i];
            law_group_add_keeps_wf(g, entry);
            let ng = group_after_add(g, entry).unwrap();
            assert(result == groups.update(i, ng));
            assert forall|a: int| 0 <= a < result.len() implies group_wf(#[trigger] result[a]) by {
                if a != i {
                    assert(result[a] == groups[a]);
                }
            }
            assert forall|a: int, e: int|
                0 <= a < result.len() && 0 <= e < result[a].entries.len() implies kinds_of(
                #[trigger] result[a].entries[e].spec_arguments(),
            ) == result[a].kinds by {
                if a != i {
                    assert(result[a] == groups[a]);
                } else if e < g.entries.len() {
                    assert(result[a].entries[e] == groups[a].entries[e]);
                } else {
                    assert(result[a].entries[e] == entry);
                }
            }
            assert forall|a: int, b: int| 0 <= a < b < result.len() implies !(
            #[trigger] result[a].member == #[trigger] result[b].member && result[a].kinds
                == result[b].kinds) by {
                assert(result[a].member == groups[a].member && result[a].kinds == groups[a].kinds);
                assert(result[b].member == groups[b].member && result[b].kinds == groups[b].kinds);
            }
        },
        None => {
            let ng = KindOverloadView { member, kinds, entries: seq![entry] };
            assert(result == groups.push(ng));
            assert forall|a: int| 0 <= a < result.len() implies group_wf(#[trigger] result[a]) by {
                if a < groups.len() {
                    assert(result[a] == groups[a]);
                }
            }
            assert forall|a: int, e: int|
                0 <= a < result.len() && 0 <= e < result[a].entries.len() implies kinds_of(
                #[trigger] result[a].entries[e].spec_arguments(),
            ) == result[a].kinds by {
                if a < groups.len() {
                    assert(result[a] == groups[a]);
                }
            }
            assert forall|a: int, b: int| 0 <= a < b < result.len() implies !(
            #[trigger] result[a].member == #[trigger] result[b].member && result[a].kinds
                == result[b].kinds) by {
                assert(result[a] == groups[a]);
                if b == groups.len() {
                    assert(!p(groups[a]));
                } else {
                    assert(result[b] == groups[b]);
                }
            }
        },
    }
}

/// Removing a group keeps the table invariant.
pub proof fn law_remove_keeps_wf<T: FunctionTypeOverload>(
    groups: Seq<KindOverloadView<T>>,
    member: bool,
    kinds: Seq<Kind>,
)
    requires
        overloads_wf(groups),
        overloads_after_remove(groups, member, kinds).is_some(),
    ensures
        overloads_wf(overloads_after_remove(groups, member, kinds).unwrap()),
{
    let p = group_is::<T>(member, kinds);
    lemma_first_index(groups, p);
    let i = first_index(groups, p).unwrap();
    let result = groups.remove(i);
    assert forall|a: int| 0 <= a < result.len() implies #[trigger] result[a] == groups[if a < i {
        a
    } else {
        a + 1
    }] by {}
    assert forall|a: int| 0 <= a < result.len() implies group_wf(#[trigger] result[a]) by {
        let _ = groups[if a < i { a } else { a + 1 }];
    }
    assert forall|a: int, e: int|
        0 <= a < result.len() && 0 <= e < result[a].entries.len() implies kinds_of(
        #[trigger] result[a].entries[e].spec_arguments(),
    ) == result[a].kinds by {
        let _ = groups[if a < i { a } else { a + 1 }];
    }
    assert forall|a: int, b: int| 0 <= a < b < result.len() implies !(
    #[trigger] result[a].member == #[trigger] result[b].member && result[a].kinds
        == result[b].kinds) by {
        let a2 = if a < i { a } else { a + 1 };
        let b2 = if b < i { b } else { b + 1 };
        assert(result[a] == groups[a2]);
        assert(result[b] == groups[b2]);
    }
}

/// An empty table of declarations meets the invariant of declaration tables.
pub proof fn law_empty_decl_table_wf<I>()
    ensures
        decl_overloads_wf(Seq::<KindOverloadView<FunctionDeclOrImpl<I>>>::empty()),
{
}

/// Adding an entry keeps every member group with a receiver, as long as a
/// member entry has at least one argument.
pub proof fn law_add_keeps_receivers<T: FunctionTypeOverload>(
    groups: Seq<KindOverloadView<T>>,
    member: bool,
    entry: T,
)
    requires
        member_groups_have_receiver(groups),
        member ==> entry.spec_arguments().len() > 0,
        overloads_after_add(groups, member, entry).is_some(),
    ensures
        member_groups_have_receiver(overloads_after_add(groups, member, entry).unwrap()),
{
    let kinds = kinds_of(entry.spec_arguments());
    let p = group_is::<T>(member, kinds);
    lemma_first_index(groups, p);
    let result = overloads_after_add(groups, member, entry).unwrap();
    match first_index(groups, p) {
        Some(i) => {
            assert forall|a: int| 0 <= a < result.len() && #[trigger] result[a].member implies result[a].kinds.len()
                > 0 by {
                assert(result[a].member == groups[a].member && result[a].kinds == groups[a].kinds);
            }
        },
        None => {
            assert forall|a: int| 0 <= a < result.len() && #[trigger] result[a].member implies result[a].kinds.len()
                > 0 by {
                if a < groups.len() {
                    assert(result[a] == groups[a]);
                }
            }
        },
    }
}

/// Removing a group keeps every member group with a receiver.
pub proof fn law_remove_keeps_receivers<T>(
    groups: Seq<KindOverloadView<T>>,
    member: bool,
    kinds: Seq<Kind>,
)
    requires
        member_groups_have_receiver(groups),
        overloads_after_remove(groups, member, kinds).is_some(),
    ensures
        member_groups_have_receiver(overloads_after_remove(groups, member, kinds).unwrap()),
{
    let p = group_is::<T>(member, kinds);
    lemma_first_index(groups, p);
    let i = first_index(groups, p).unwrap();
    let result = groups.remove(i);
    assert forall|a: int| 0 <= a < result.len() && #[trigger] result[a].member implies result[a].kinds.len()
        > 0 by {
        assert(result[a] == groups[if a < i { a } else { a + 1 }]);
    }
}

/// Adding a declaration as `add_decl` does when it succeeds (a member
/// function has at least one argument) keeps the invariant of declaration
/// tables.
pub proof fn law_add_decl_keeps_wf<I>(
    groups: Seq<KindOverloadView<FunctionDeclOrImpl<I>>>,
    member: bool,
    decl: FunctionType,
)
    requires
        decl_overloads_wf(groups),
        !(member && decl.arguments@.len() == 0),
        overloads_after_add(groups, member, decl_entry::<I>(decl)).is_some(),
    ensures
        decl_overloads_wf(overloads_after_add(groups, member, decl_entry::<I>(decl)).unwrap()),
{
    lemma_entry_parts::<I>(decl, arbitrary());
    lemma_view_types(decl.arguments@);
    law_add_keeps_wf(groups, member, decl_entry::<I>(decl));
    law_add_keeps_receivers(groups, member, decl_entry::<I>(decl));
}

/// Adding a declaration with its implementation as `add_impl` does when it
/// succeeds keeps the invariant of declaration tables.
pub proof fn law_add_impl_keeps_wf<I>(
    groups: Seq<KindOverloadView<FunctionDeclOrImpl<I>>>,
    member: bool,
    decl: FunctionType,
    implementation: I,
)
    requires
        decl_overloads_wf(groups),
        !(member && decl.arguments@.len() == 0),
        overloads_after_add(groups, member, impl_entry(decl, implementation)).is_some(),
    ensures
        decl_overloads_wf(
            overloads_after_add(groups, member, impl_entry(decl, implementation)).unwrap(),
        ),
{
    lemma_entry_parts::<I>(decl, implementation);
    lemma_view_types(decl.arguments@);
    law_add_keeps_wf(groups, member, impl_entry(decl, implementation));
    law_add_keeps_receivers(groups, member, impl_entry(decl, implementation));
}

/// Removing a group keeps the invariant of declaration tables.
pub proof fn law_remove_keeps_decl_wf<T: FunctionTypeOverload>(
    groups: Seq<KindOverloadView<T>>,
    member: bool,
    kinds: Seq<Kind>,
)
    requires
        decl_overloads_wf(groups),
        overloads_after_remove(groups, member, kinds).is_some(),
    ensures
        decl_overloads_wf(overloads_after_remove(groups, member, kinds).unwrap()),
{
    law_remove_keeps_wf(groups, member, kinds);
    law_remove_keeps_receivers(groups, member, kinds);
}

/// After an entry is added, looking up its member flag and argument kinds and
/// then its argument types gives that entry back.
pub proof fn law_added_entry_is_found<T: FunctionTypeOverload>(
    groups: Seq<KindOverloadView<T>>,
    member: bool,
    entry: T,
)
    requires
        overloads_after_add(groups, member, entry).is_some(),
    ensures
        ({
            let result = overloads_after_add(groups, member, entry).unwrap();
            let kinds = kinds_of(entry.spec_arguments());
            &&& first_index(result, group_is::<T>(member, kinds)) matches Some(i)
            &&& first_index(result[i].entries, signature_is::<T>(entry.spec_arguments())) matches Some(
                j,
            )
            &&& result[i].entries[j] == entry
        }),
{
    let kinds = kinds_of(entry.spec_arguments());
    let p = group_is::<T>(member, kinds);
    let q = signature_is::<T>(entry.spec_arguments());
    let result = overloads_after_add(groups, member, entry).unwrap();
    lemma_first_index(groups, p);
    match first_index(groups, p) {
        Some(i) => {
            assert(result == groups.update(i, group_after_add(groups[i], entry).unwrap()));
            assert forall|j: int| 0 <= j < i implies !p(#[trigger] result[j]) by {
                assert(result[j] == groups[j]);
            }
            lemma_first_index_at(result, p, i);
            let g = groups[i];
            lemma_first_index(g.entries, q);
            let es = result[i].entries;
            assert(es == g.entries.push(entry));
            assert forall|j: int| 0 <= j < g.entries.len() implies !q(#[trigger] es[j]) by {
                assert(es[j] == g.entries[j]);
            }
            lemma_first_index_at(es, q, g.entries.len() as int);
        },
        None => {
            assert forall|j: int| 0 <= j < groups.len() implies !p(#[trigger] result[j]) by {
                assert(result[j] == groups[j]);
            }
            lemma_first_index_at(result, p, groups.len() as int);
            lemma_first_index_at(result[groups.len() as int].entries, q, 0);
        },
    }
}

/// Once an entry is added, adding another entry with the same member flag and
/// argument types fails.
pub proof fn law_add_twice_fails<T: FunctionTypeOverload>(
    groups: Seq<KindOverloadView<T>>,
    member: bool,
    first: T,
    second: T,
)
    requires
        overloads_after_add(groups, member, first).is_some(),
        second.spec_arguments() == first.spec_arguments(),
    ensures
        overloads_after_add(overloads_after_add(groups, member, first).unwrap(), member, second).is_none(),
{
    law_added_entry_is_found(groups, member, first);
}

/// Removing the group that an add just created gives back the table as it was.
pub proof fn law_remove_undoes_add<T: FunctionTypeOverload>(
    groups: Seq<KindOverloadView<T>>,
    member: bool,
    entry: T,
)
    requires
        first_index(groups, group_is::<T>(member, kinds_of(entry.spec_arguments()))).is_none(),
    ensures
        overloads_after_add(groups, member, entry) matches Some(added)
            && overloads_after_remove(added, member, kinds_of(entry.spec_arguments())) == Some(groups),
{
    let kinds = kinds_of(entry.spec_arguments());
    let p = group_is::<T>(member, kinds);
    lemma_first_index(groups, p);
    let added = overloads_after_add(groups, member, entry).unwrap();
    assert forall|j: int| 0 <= j < groups.len() implies !p(#[trigger] added[j]) by {
        assert(added[j] == groups[j]);
    }
    lemma_first_index_at(added, p, groups.len() as int);
    assert(added.remove(groups.len() as int) =~= groups);
}

/// In a table of functions by name, the entry for `name` is found by name both
/// before and after an add under `name`, at the same index, and the names stay
/// distinct.
pub proof fn law_named_add_keeps_names<T: FunctionTypeOverload>(
    entries: NamedOverloadsView<T>,
    name: Seq<char>,
    member: bool,
    entry: T,
    check_member: bool,
)
    requires
        names_distinct(entries),
    ensures
        ({
            let (after, _) = named_after_add(entries, name, member, entry, check_member);
            &&& names_distinct(after)
            &&& first_index(after, name_is::<T>(name)) == Some(slot_for(entries, name).1)
        }),
{
    let p = name_is::<T>(name);
    lemma_first_index(entries, p);
    let (base, i) = slot_for(entries, name);
    let (after, _) = named_after_add(entries, name, member, entry, check_member);
    assert forall|j: int| 0 <= j < after.len() implies #[trigger] after[j].0 == base[j].0 by {}
    assert forall|j: int| 0 <= j < i implies !p(#[trigger] after[j]) by {
        assert(after[j].0 == entries[j].0);
    }
    lemma_first_index_at(after, p, i);
    assert forall|a: int, b: int| 0 <= a < b < after.len() implies #[trigger] after[a].0
        != #[trigger] after[b].0 by {
        assert(after[a].0 == base[a].0);
        assert(after[b].0 == base[b].0);
        if b == entries.len() {
            assert(!p(entries[a]));
        }
    }
}

/// After a successful add under `name`, looking up `name`, then the member flag
/// and argument kinds, then the argument types gives the added entry back.
pub proof fn law_named_added_entry_is_found<T: FunctionTypeOverload>(
    entries: NamedOverloadsView<T>,
    name: Seq<char>,
    member: bool,
    entry: T,
    check_member: bool,
)
    requires
        named_after_add(entries, name, member, entry, check_member).1.is_ok(),
    ensures
        ({
            let (after, _) = named_after_add(entries, name, member, entry, check_member);
            let kinds = kinds_of(entry.spec_arguments());
            &&& first_index(after, name_is::<T>(name)) matches Some(n)
            &&& first_index(after[n].1, group_is::<T>(member, kinds)) matches Some(i)
            &&& first_index(after[n].1[i].entries, signature_is::<T>(entry.spec_arguments()))
                matches Some(j)
            &&& after[n].1[i].entries[j] == entry
        }),
{
    let p = name_is::<T>(name);
    lemma_first_index(entries, p);
    let (base, i) = slot_for(entries, name);
    let (after, _) = named_after_add(entries, name, member, entry, check_member);
    assert forall|j: int| 0 <= j < i implies !p(#[trigger] after[j]) by {
        assert(after[j].0 == entries[j].0);
    }
    lemma_first_index_at(after, p, i);
    law_added_entry_is_found(base[i].1, member, entry);
}

/// When names are distinct, removing the first entry for `name` leaves none
/// for it, and the names stay distinct.
pub proof fn law_named_remove<T>(entries: NamedOverloadsView<T>, name: Seq<char>)
    requires
        names_distinct(entries),
        first_index(entries, name_is::<T>(name)).is_some(),
    ensures
        ({
            let after = entries.remove(first_index(entries, name_is::<T>(name)).unwrap());
            &&& first_index(after, name_is::<T>(name)).is_none()
            &&& names_distinct(after)
        }),
{
    let p = name_is::<T>(name);
    lemma_first_index(entries, p);
    let i = first_index(entries, p).unwrap();
    let after = entries.remove(i);
    assert forall|j: int| 0 <= j < after.len() implies !p(#[trigger] after[j]) by {
        let k = if j < i { j } else { j + 1 };
        assert(after[j] == entries[k]);
        assert(entries[k].0 != entries[i].0);
    }
    lemma_first_index(after, p);
    assert forall|a: int, b: int| 0 <= a < b < after.len() implies #[trigger] after[a].0
        != #[trigger] after[b].0 by {
        let a2 = if a < i { a } else { a + 1 };
        let b2 = if b < i { b } else { b + 1 };
        assert(after[a] == entries[a2]);
        assert(after[b] == entries[b2]);
    }
}

} // verus!
