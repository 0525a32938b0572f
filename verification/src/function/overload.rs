//! Overload tables: the signatures (and implementations) registered under one
//! function name, grouped by member flag and argument kinds.
use vstd::prelude::*;
use crate::error::{Code, Error};
use crate::kind::{kind_name, Kind};
use crate::seq_search::{first_index, lemma_first_index, lemma_first_index_at, lemma_first_index_none};
use crate::text::{concat, join_seq, join_with, strings_view, text};
use crate::types::{
    duplicate_types, kinds_of, lemma_types_display, lemma_view_types, types_display,
    types_equal_slice, view_types, FunctionType, TypeView, ValueType,
};

verus! {

/// A function-like entry of an overload table, whose argument types can be read.
pub trait FunctionTypeOverload {
    /// The models of the argument types.
    spec fn spec_arguments(&self) -> Seq<TypeView>;

    /// Returns the argument types, in order.
    fn arguments(&self) -> (r: Vec<ValueType>)
        ensures
            view_types(r@) == self.spec_arguments(),
    ;
}

/// A function declaration, with an implementation of type `I` where there is one.
#[derive(Debug)]
pub struct FunctionDeclOrImpl<I> {
    decl: FunctionType,
    implementation: Option<I>,
}

/// The entry that declares `decl` without an implementation.
pub closed spec fn decl_entry<I>(decl: FunctionType) -> FunctionDeclOrImpl<I> {
    FunctionDeclOrImpl { decl, implementation: None }
}

/// The entry that declares `decl` with the implementation `implementation`.
pub closed spec fn impl_entry<I>(decl: FunctionType, implementation: I) -> FunctionDeclOrImpl<I> {
    FunctionDeclOrImpl { decl, implementation: Some(implementation) }
}

/// The declared signature and the implementation of the entries made by
/// [`decl_entry`] and [`impl_entry`].
pub proof fn lemma_entry_parts<I>(decl: FunctionType, implementation: I)
    ensures
        decl_entry::<I>(decl).spec_decl() == decl,
        decl_entry::<I>(decl).spec_impl().is_none(),
        impl_entry(decl, implementation).spec_decl() == decl,
        impl_entry(decl, implementation).spec_impl() == Some(implementation),
{
}

impl<I> FunctionDeclOrImpl<I> {
    /// The declared signature.
    pub closed spec fn spec_decl(&self) -> FunctionType {
        self.decl
    }

    /// The implementation, where there is one.
    pub closed spec fn spec_impl(&self) -> Option<I> {
        self.implementation
    }

    /// Creates a declaration without an implementation.
    pub fn new(decl: FunctionType) -> (r: Self)
        ensures
            r == decl_entry::<I>(decl),
            r.spec_decl() == decl,
            r.spec_impl().is_none(),
    {
        FunctionDeclOrImpl { decl, implementation: None }
    }

    /// Creates a declaration of signature `decl` together with its
    /// implementation.
    pub fn new_impl(decl: FunctionType, implementation: I) -> (r: Self)
        ensures
            r == impl_entry(decl, implementation),
            r.spec_decl() == decl,
            r.spec_impl() == Some(implementation),
    {
        FunctionDeclOrImpl { decl, implementation: Some(implementation) }
    }

    /// Returns whether there is an implementation.
    pub fn is_impl(&self) -> (r: bool)
        ensures
            r == self.spec_impl().is_some(),
    {
        self.implementation.is_some()
    }

    /// Returns the declared signature.
    pub fn decl(&self) -> (r: &FunctionType)
        ensures
            *r == self.spec_decl(),
    {
        &self.decl
    }

    /// Returns the implementation, where there is one.
    pub fn implementation(&self) -> (r: Option<&I>)
        ensures
            match self.spec_impl() {
                Some(i) => r == Some(&i),
                None => r.is_none(),
            },
    {
        match &self.implementation {
            Some(i) => Some(i),
            None => None,
        }
    }
}

impl<I> FunctionTypeOverload for FunctionDeclOrImpl<I> {
    open spec fn spec_arguments(&self) -> Seq<TypeView> {
        view_types(self.spec_decl().arguments@)
    }

    fn arguments(&self) -> (r: Vec<ValueType>) {
        duplicate_types(&self.decl.arguments)
    }
}

/// The model of one group of overloads.
pub ghost struct KindOverloadView<T> {
    /// Whether the group holds member functions.
    pub member: bool,
    /// The argument kinds of the group.
    pub kinds: Seq<Kind>,
    /// The entries, in the order in which they were added.
    pub entries: Seq<T>,
}

/// Whether an entry has the argument types `args`.
pub open spec fn signature_is<T: FunctionTypeOverload>(args: Seq<TypeView>) -> spec_fn(T) -> bool {
    |e: T| e.spec_arguments() == args
}

/// The text `Overload [member] (A, B) not found` (or `[global]`), from the
/// display texts of the arguments.
pub open spec fn not_found_message(member: bool, names: Seq<Seq<char>>) -> Seq<char> {
    "Overload ["@ + (if member {
        "member"@
    } else {
        "global"@
    }) + "] ("@ + join_seq(names, ", "@) + ") not found"@
}

/// The display texts of a sequence of kinds.
pub open spec fn kind_names(kinds: Seq<Kind>) -> Seq<Seq<char>> {
    kinds.map_values(|k: Kind| kind_name(k))
}

/// The group after `entry` is added: `None` when an entry with the same
/// argument types is there already.
pub open spec fn group_after_add<T: FunctionTypeOverload>(g: KindOverloadView<T>, entry: T) -> Option<
    KindOverloadView<T>,
> {
    match first_index(g.entries, signature_is::<T>(entry.spec_arguments())) {
        Some(_) => None,
        None => Some(KindOverloadView { entries: g.entries.push(entry), ..g }),
    }
}

/// No two entries of a group have the same argument types.
pub open spec fn group_wf<T: FunctionTypeOverload>(g: KindOverloadView<T>) -> bool {
    forall|a: int, b: int|
        0 <= a < b < g.entries.len() ==> #[trigger] g.entries[a].spec_arguments()
            != #[trigger] g.entries[b].spec_arguments()
}

fn not_found_error(member: bool, names: &Vec<String>) -> (r: Error)
    ensures
        r@ == (Code::NotFound, not_found_message(member, strings_view(names@))),
{
    let joined = join_with(names, ", ");
    let s = concat(text("Overload ["), if member {
        "member"
    } else {
        "global"
    });
    let s = concat(concat(concat(s, "] ("), joined.as_str()), ") not found");
    Error::not_found(s.as_str())
}

fn already_exists_error() -> (r: Error)
    ensures
        r@ == (Code::InvalidArgument, "Function already exists"@),
{
    Error::invalid_argument("Function already exists")
}

/// One group of overloads: the entries with the same member flag and argument
/// kinds.
#[derive(Debug)]
pub struct FunctionKindOverload<T> {
    member: bool,
    argument_kinds: Vec<Kind>,
    entries: Vec<T>,
}

impl<T> View for FunctionKindOverload<T> {
    type V = KindOverloadView<T>;

    closed spec fn view(&self) -> KindOverloadView<T> {
        KindOverloadView { member: self.member, kinds: self.argument_kinds@, entries: self.entries@ }
    }
}

impl<T: FunctionTypeOverload> FunctionKindOverload<T> {
    /// Creates an empty group for the given member flag and argument kinds.
    pub fn new(member: bool, argument_kinds: Vec<Kind>) -> (r: Self)
        ensures
            r@ == (KindOverloadView::<T> { member, kinds: argument_kinds@, entries: Seq::empty() }),
    {
        FunctionKindOverload { member, argument_kinds, entries: Vec::new() }
    }

    /// Returns whether the group holds member functions.
    pub fn member(&self) -> (r: bool)
        ensures
            r == self@.member,
    {
        self.member
    }

    /// Returns the argument kinds of the group.
    pub fn argument_kinds(&self) -> (r: &Vec<Kind>)
        ensures
            r@ == self@.kinds,
    {
        &self.argument_kinds
    }

    fn position(&self, args: &[ValueType]) -> (r: Option<usize>)
        ensures
            match r {
                Some(k) => first_index(self@.entries, signature_is::<T>(view_types(args@))) == Some(
                    k as int,
                ) && k < self@.entries.len(),
                None => first_index(self@.entries, signature_is::<T>(view_types(args@))).is_none(),
            },
    {
        proof {
            lemma_first_index(self@.entries, signature_is::<T>(view_types(args@)));
        }
        let ghost p = signature_is::<T>(view_types(args@));
        let n = self.entries.len();
        let mut i: usize = 0;
        while i < n
            invariant
                n == self@.entries.len(),
                0 <= i <= n,
                p == signature_is::<T>(view_types(args@)),
                forall|j: int| 0 <= j < i ==> !p(#[trigger] self@.entries[j]),
            decreases n - i,
        {
            let a = self.entries[i].arguments();
            if types_equal_slice(&a, args) {
                proof {
                    lemma_first_index_at(self@.entries, p, i as int);
                }
                return Some(i);
            }
            i += 1;
        }
        proof {
            lemma_first_index_none(self@.entries, p);
        }
        None
    }

    /// Returns the first entry whose argument types are `args`.
    pub fn find(&self, args: &[ValueType]) -> (r: Option<&T>)
        ensures
            match first_index(self@.entries, signature_is::<T>(view_types(args@))) {
                Some(i) => r == Some(&self@.entries[i]),
                None => r.is_none(),
            },
    {
        match self.position(args) {
            Some(i) => {
                assert(first_index(self@.entries, signature_is::<T>(view_types(args@))) == Some(i as int));
                let e = &self.entries[i];
                assert(*e == self@.entries[i as int]);
                Some(e)
            },
            None => None,
        }
    }

    /// Returns the entries, in the order in which they were added.
    pub fn entries(&self) -> (r: &[T])
        ensures
            r@ == self@.entries,
    {
        self.entries.as_slice()
    }

    /// Returns the entries for change; the member flag and the argument kinds
    /// stay as they are.
    pub fn entries_mut(&mut self) -> (r: &mut [T])
        ensures
            r@ == old(self)@.entries,
            final(self)@ == (KindOverloadView { entries: final(r)@, ..old(self)@ }),
    {
        self.entries.as_mut_slice()
    }

    /// Removes every entry.
    pub fn clear(&mut self)
        ensures
            final(self)@ == (KindOverloadView { entries: Seq::empty(), ..old(self)@ }),
    {
        self.entries.clear();
    }

    /// Removes the first entry whose argument types are `args`; fails with
    /// [`Code::NotFound`] when there is none.
    pub fn remove(&mut self, args: &[ValueType]) -> (r: Result<(), Error>)
        ensures
            match first_index(old(self)@.entries, signature_is::<T>(view_types(args@))) {
                Some(i) => {
                    &&& r.is_ok()
                    &&& final(self)@ == (KindOverloadView {
                        entries: old(self)@.entries.remove(i),
                        ..old(self)@
                    })
                },
                None => {
                    &&& r matches Err(e) && e@ == (Code::NotFound, not_found_message(
                        old(self)@.member,
                        types_display(view_types(args@)),
                    ))
                    &&& final(self)@ == old(self)@
                },
            },
    {
        match self.position(args) {
            Some(i) => {
                self.entries.remove(i);
                assert(first_index(old(self)@.entries, signature_is::<T>(view_types(args@))) == Some(i as int));
                assert(self@.entries == old(self)@.entries.remove(i as int));
                Ok(())
            },
            None => {
                let n = args.len();
                let mut names: Vec<String> = Vec::new();
                let mut i: usize = 0;
                while i < n
                    invariant
                        n == args@.len(),
                        0 <= i <= n,
                        names@.len() == i,
                        forall|j: int| 0 <= j < i ==> #[trigger] names@[j]@ == crate::types::type_display(args@[j]@),
                    decreases n - i,
                {
                    names.push(args[i].to_string());
                    i += 1;
                }
                proof {
                    lemma_view_types(args@);
                    lemma_types_display(view_types(args@));
                    assert forall|j: int| 0 <= j < n implies strings_view(names@)[j] == types_display(
                        view_types(args@),
                    )[j] by {
                        assert(names@[j]@ == crate::types::type_display(args@[j]@));
                    }
                    assert(strings_view(names@) =~= types_display(view_types(args@)));
                }
                Err(not_found_error(self.member, &names))
            },
        }
    }

    /// Adds `f`; fails with [`Code::InvalidArgument`] when an entry with the
    /// same argument types is there already.
    pub fn add(&mut self, f: T) -> (r: Result<&mut Self, Error>)
        ensures
            match group_after_add(old(self)@, f) {
                Some(g) => r matches Ok(s) && s@ == g && final(self)@ == final(s)@,
                None => {
                    &&& r matches Err(e) && e@ == (Code::InvalidArgument, "Function already exists"@)
                    &&& final(self)@ == old(self)@
                },
            },
    {
        let args = f.arguments();
        match self.position(args.as_slice()) {
            Some(_) => Err(already_exists_error()),
            None => {
                self.entries.push(f);
                Ok(self)
            },
        }
    }
}

impl<I> FunctionKindOverload<FunctionDeclOrImpl<I>> {
    /// Adds a declaration of signature `decl` without an implementation; fails
    /// with [`Code::InvalidArgument`] when an entry with the same argument types
    /// is there already.
    pub fn add_decl(&mut self, decl: FunctionType) -> (r: Result<&mut Self, Error>)
        ensures
            match group_after_add(old(self)@, decl_entry::<I>(decl)) {
                Some(g) => r matches Ok(s) && s@ == g && final(self)@ == final(s)@,
                None => {
                    &&& r matches Err(e) && e@ == (Code::InvalidArgument, "Function already exists"@)
                    &&& final(self)@ == old(self)@
                },
            },
    {
        self.add(FunctionDeclOrImpl::new(decl))
    }

    /// Adds a declaration of signature `decl` with its implementation; fails
    /// with [`Code::InvalidArgument`] when an entry with the same argument types
    /// is there already.
    pub fn add_impl(&mut self, decl: FunctionType, implementation: I) -> (r: Result<&mut Self, Error>)
        ensures
            match group_after_add(old(self)@, impl_entry(decl, implementation)) {
                Some(g) => r matches Ok(s) && s@ == g && final(self)@ == final(s)@,
                None => {
                    &&& r matches Err(e) && e@ == (Code::InvalidArgument, "Function already exists"@)
                    &&& final(self)@ == old(self)@
                },
            },
    {
        self.add(FunctionDeclOrImpl::new_impl(decl, implementation))
    }
}

/// Whether a group has the given member flag and argument kinds.
pub open spec fn group_is<T>(member: bool, kinds: Seq<Kind>) -> spec_fn(KindOverloadView<T>) -> bool {
    |g: KindOverloadView<T>| g.member == member && g.kinds == kinds
}

/// The groups after `entry` is added as a member (or global) function: into
/// the first group of its member flag and argument kinds, or into a new group
/// at the end when there is none; `None` when that group has an entry with the
/// same argument types already.
pub open spec fn overloads_after_add<T: FunctionTypeOverload>(
    groups: Seq<KindOverloadView<T>>,
    member: bool,
    entry: T,
) -> Option<Seq<KindOverloadView<T>>> {
    let kinds = kinds_of(entry.spec_arguments());
    match first_index(groups, group_is::<T>(member, kinds)) {
        Some(i) => match group_after_add(groups[i], entry) {
            Some(g) => Some(groups.update(i, g)),
            None => None,
        },
        None => Some(groups.push(KindOverloadView { member, kinds, entries: seq![entry] })),
    }
}

/// The groups after the first group of the given member flag and argument
/// kinds is removed; `None` when there is no such group.
pub open spec fn overloads_after_remove<T>(
    groups: Seq<KindOverloadView<T>>,
    member: bool,
    kinds: Seq<Kind>,
) -> Option<Seq<KindOverloadView<T>>> {
    match first_index(groups, group_is::<T>(member, kinds)) {
        Some(i) => Some(groups.remove(i)),
        None => None,
    }
}

/// The invariant of an overload table: no two groups share a member flag and
/// argument kinds, no group has two entries with the same argument types, and
/// every entry's argument kinds are those of its group.
pub open spec fn overloads_wf<T: FunctionTypeOverload>(groups: Seq<KindOverloadView<T>>) -> bool {
    &&& forall|a: int, b: int|
        0 <= a < b < groups.len() ==> !(#[trigger] groups[a].member == #[trigger] groups[b].member
            && groups[a].kinds == groups[b].kinds)
    &&& forall|a: int| 0 <= a < groups.len() ==> group_wf(#[trigger] groups[a])
    &&& forall|a: int, e: int|
        0 <= a < groups.len() && 0 <= e < groups[a].entries.len() ==> kinds_of(
            #[trigger] groups[a].entries[e].spec_arguments(),
        ) == groups[a].kinds
}

/// Every group of member functions has at least one argument kind: the
/// receiver.
pub open spec fn member_groups_have_receiver<T>(groups: Seq<KindOverloadView<T>>) -> bool {
    forall|a: int| 0 <= a < groups.len() && #[trigger] groups[a].member ==> groups[a].kinds.len() > 0
}

/// The invariant of a table of declarations: that of every overload table,
/// and every group of member functions has a receiver.
pub open spec fn decl_overloads_wf<T: FunctionTypeOverload>(groups: Seq<KindOverloadView<T>>) -> bool {
    &&& overloads_wf(groups)
    &&& member_groups_have_receiver(groups)
}

fn kinds_equal(a: &Vec<Kind>, b: &[Kind]) -> (r: bool)
    ensures
        r == (a@ == b@),
{
    if a.len() != b.len() {
        return false;
    }
    let n = a.len();
    let mut i: usize = 0;
    while i < n
        invariant
            n == a@.len(),
            n == b@.len(),
            0 <= i <= n,
            forall|j: int| 0 <= j < i ==> a@[j] == b@[j],
        decreases n - i,
    {
        if a[i] != b[i] {
            return false;
        }
        i += 1;
    }
    assert(a@ =~= b@);
    true
}

fn kinds_of_types(args: &Vec<ValueType>) -> (r: Vec<Kind>)
    ensures
        r@ == kinds_of(view_types(args@)),
{
    proof {
        lemma_view_types(args@);
    }
    let n = args.len();
    let mut r: Vec<Kind> = Vec::new();
    let mut i: usize = 0;
    while i < n
        invariant
            n == args@.len(),
            0 <= i <= n,
            r@.len() == i,
            view_types(args@).len() == n,
            forall|j: int| 0 <= j < n ==> #[trigger] view_types(args@)[j] == args@[j]@,
            forall|j: int| 0 <= j < i ==> r@[j] == crate::types::kind_of(#[trigger] args@[j]@),
        decreases n - i,
    {
        r.push(args[i].kind());
        i += 1;
    }
    assert(r@ =~= kinds_of(view_types(args@)));
    r
}

fn kind_names_of(kinds: &[Kind]) -> (r: Vec<String>)
    ensures
        strings_view(r@) == kind_names(kinds@),
{
    let n = kinds.len();
    let mut r: Vec<String> = Vec::new();
    let mut i: usize = 0;
    while i < n
        invariant
            n == kinds@.len(),
            0 <= i <= n,
            r@.len() == i,
            forall|j: int| 0 <= j < i ==> #[trigger] r@[j]@ == kind_name(kinds@[j]),
        decreases n - i,
    {
        r.push(kinds[i].to_string());
        i += 1;
    }
    assert forall|j: int| 0 <= j < n implies strings_view(r@)[j] == kind_names(kinds@)[j] by {
        assert(r@[j]@ == kind_name(kinds@[j]));
    }
    assert(strings_view(r@) =~= kind_names(kinds@));
    r
}

/// The overload table of one function name: groups of overloads, each of one
/// member flag and one sequence of argument kinds.
#[derive(Debug)]
pub struct FunctionOverloads<T>(Vec<FunctionKindOverload<T>>);

impl<T> View for FunctionOverloads<T> {
    type V = Seq<KindOverloadView<T>>;

    closed spec fn view(&self) -> Seq<KindOverloadView<T>> {
        self.0@.map_values(|g: FunctionKindOverload<T>| g@)
    }
}

impl<T: FunctionTypeOverload> FunctionOverloads<T> {
    /// Creates an empty table.
    pub fn new() -> (r: Self)
        ensures
            r@ == Seq::<KindOverloadView<T>>::empty(),
    {
        let r = FunctionOverloads(Vec::new());
        assert(r@ =~= Seq::<KindOverloadView<T>>::empty());
        r
    }

    fn position(&self, member: bool, kinds: &[Kind]) -> (r: Option<usize>)
        ensures
            match r {
                Some(k) => first_index(self@, group_is::<T>(member, kinds@)) == Some(k as int) && k
                    < self@.len(),
                None => first_index(self@, group_is::<T>(member, kinds@)).is_none(),
            },
    {
        let ghost p = group_is::<T>(member, kinds@);
        let n = self.0.len();
        let mut i: usize = 0;
        while i < n
            invariant
                n == self@.len(),
                n == self.0@.len(),
                0 <= i <= n,
                p == group_is::<T>(member, kinds@),
                forall|j: int| 0 <= j < n ==> #[trigger] self@[j] == self.0@[j]@,
                forall|j: int| 0 <= j < i ==> !p(#[trigger] self@[j]),
            decreases n - i,
        {
            if self.0[i].member() == member && kinds_equal(self.0[i].argument_kinds(), kinds) {
                proof {
                    lemma_first_index_at(self@, p, i as int);
                }
                return Some(i);
            }
            i += 1;
        }
        proof {
            lemma_first_index_none(self@, p);
        }
        None
    }

    /// Returns the first group of the given member flag and argument kinds.
    pub fn find(&self, member: bool, kinds: &[Kind]) -> (r: Option<&FunctionKindOverload<T>>)
        ensures
            match first_index(self@, group_is::<T>(member, kinds@)) {
                Some(i) => r.is_some() && r.unwrap()@ == self@[i],
                None => r.is_none(),
            },
    {
        match self.position(member, kinds) {
            Some(i) => Some(&self.0[i]),
            None => None,
        }
    }

    /// Returns the first group of the given member flag and argument kinds, for
    /// change.
    pub fn find_mut(&mut self, member: bool, kinds: &[Kind]) -> (r: Option<
        &mut FunctionKindOverload<T>,
    >)
        ensures
            match first_index(old(self)@, group_is::<T>(member, kinds@)) {
                Some(i) => {
                    &&& r matches Some(m) && m@ == old(self)@[i] && final(self)@ == old(
                        self,
                    )@.update(i, final(m)@)
                    &&& r matches Some(m) && (final(m)@ == m@ ==> final(self)@ == old(self)@)
                },
                None => r.is_none() && final(self)@ == old(self)@,
            },
    {
        match self.position(member, kinds) {
            Some(i) => {
                assert(old(self)@.update(i as int, old(self)@[i as int]) =~= old(self)@);
                Some(&mut self.0[i])
            },
            None => None,
        }
    }

    /// Returns the groups, in the order in which they were created.
    pub fn entries(&self) -> (r: &[FunctionKindOverload<T>])
        ensures
            r@.map_values(|g: FunctionKindOverload<T>| g@) == self@,
    {
        self.0.as_slice()
    }

    /// Returns the groups for change.
    pub fn entries_mut(&mut self) -> (r: &mut [FunctionKindOverload<T>])
        ensures
            r@.map_values(|g: FunctionKindOverload<T>| g@) == old(self)@,
            final(self)@ == final(r)@.map_values(|g: FunctionKindOverload<T>| g@),
    {
        self.0.as_mut_slice()
    }

    /// Removes every group.
    pub fn clear(&mut self)
        ensures
            final(self)@ == Seq::<KindOverloadView<T>>::empty(),
    {
        self.0.clear();
        assert(self@ =~= Seq::<KindOverloadView<T>>::empty());
    }

    /// Removes the first group of the given member flag and argument kinds;
    /// fails with [`Code::NotFound`] when there is none.
    pub fn remove(&mut self, member: bool, kinds: &[Kind]) -> (r: Result<(), Error>)
        ensures
            match overloads_after_remove(old(self)@, member, kinds@) {
                Some(g) => r.is_ok() && final(self)@ == g,
                None => {
                    &&& r matches Err(e) && e@ == (Code::NotFound, not_found_message(
                        member,
                        kind_names(kinds@),
                    ))
                    &&& final(self)@ == old(self)@
                },
            },
    {
        match self.position(member, kinds) {
            Some(i) => {
                self.0.remove(i);
                assert(self@ =~= old(self)@.remove(i as int));
                Ok(())
            },
            None => {
                let names = kind_names_of(kinds);
                Err(not_found_error(member, &names))
            },
        }
    }

    /// Adds `f` as a member (or global) function: into the group of its member
    /// flag and argument kinds, which is created when there is none; fails with
    /// [`Code::InvalidArgument`] when that group has an entry with the same
    /// argument types already.
    pub fn add(&mut self, member: bool, f: T) -> (r: Result<&mut Self, Error>)
        ensures
            match overloads_after_add(old(self)@, member, f) {
                Some(g) => r matches Ok(s) && s@ == g && final(self)@ == final(s)@,
                None => {
                    &&& r matches Err(e) && e@ == (Code::InvalidArgument, "Function already exists"@)
                    &&& final(self)@ == old(self)@
                },
            },
    {
        let args = f.arguments();
        let kinds = kinds_of_types(&args);
        match self.position(member, kinds.as_slice()) {
            Some(i) => {
                let res: Result<(), Error> = match self.0[i].add(f) {
                    Ok(_) => Ok(()),
                    Err(e) => Err(e),
                };
                assert(self@ =~= old(self)@.update(i as int, self.0@[i as int]@));
                match res {
                    Ok(()) => Ok(self),
                    Err(e) => Err(e),
                }
            },
            None => {
                let mut group = FunctionKindOverload::new(member, kinds);
                let res: Result<(), Error> = match group.add(f) {
                    Ok(_) => Ok(()),
                    Err(e) => Err(e),
                };
                assert(group@.entries =~= seq![f]);
                self.0.push(group);
                assert(self@ =~= old(self)@.push(group@));
                match res {
                    Ok(()) => Ok(self),
                    Err(e) => Err(e),
                }
            },
        }
    }
}

fn member_without_arguments_error() -> (r: Error)
    ensures
        r@ == (Code::InvalidArgument, "Member functions cannot have zero arguments"@),
{
    Error::invalid_argument("Member functions cannot have zero arguments")
}

impl<I> FunctionOverloads<FunctionDeclOrImpl<I>> {
    /// Adds a declaration of signature `decl` without an implementation, as a
    /// member (or global) function. A member function needs at least one
    /// argument (its receiver); otherwise as [`FunctionOverloads::add`].
    pub fn add_decl(&mut self, member: bool, decl: FunctionType) -> (r: Result<&mut Self, Error>)
        ensures
            if member && decl.arguments@.len() == 0 {
                &&& r matches Err(e) && e@ == (
                    Code::InvalidArgument,
                    "Member functions cannot have zero arguments"@,
                )
                &&& final(self)@ == old(self)@
            } else {
                match overloads_after_add(old(self)@, member, decl_entry::<I>(decl)) {
                    Some(g) => r matches Ok(s) && s@ == g && final(self)@ == final(s)@,
                    None => {
                        &&& r matches Err(e) && e@ == (Code::InvalidArgument, "Function already exists"@)
                        &&& final(self)@ == old(self)@
                    },
                }
            },
    {
        if member && decl.arguments.len() == 0 {
            return Err(member_without_arguments_error());
        }
        self.add(member, FunctionDeclOrImpl::new(decl))
    }

    /// Adds a declaration of signature `decl` with its implementation, as a
    /// member (or global) function; as [`FunctionOverloads::add_decl`].
    pub fn add_impl(&mut self, member: bool, decl: FunctionType, implementation: I) -> (r: Result<
        &mut Self,
        Error,
    >)
        ensures
            if member && decl.arguments@.len() == 0 {
                &&& r matches Err(e) && e@ == (
                    Code::InvalidArgument,
                    "Member functions cannot have zero arguments"@,
                )
                &&& final(self)@ == old(self)@
            } else {
                match overloads_after_add(old(self)@, member, impl_entry(decl, implementation)) {
                    Some(g) => r matches Ok(s) && s@ == g && final(self)@ == final(s)@,
                    None => {
                        &&& r matches Err(e) && e@ == (Code::InvalidArgument, "Function already exists"@)
                        &&& final(self)@ == old(self)@
                    },
                }
            },
    {
        if member && decl.arguments.len() == 0 {
            return Err(member_without_arguments_error());
        }
        self.add(member, FunctionDeclOrImpl::new_impl(decl, implementation))
    }
}

} // verus!
