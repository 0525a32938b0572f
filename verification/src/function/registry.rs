//! Tables of functions by name: the declarations and implementations
//! registered with an environment, and the implementations bound to an
//! activation.
use vstd::prelude::*;
use crate::error::{Code, Error};
use crate::seq_search::{first_index, lemma_first_index, lemma_first_index_at, lemma_first_index_none};
use crate::text::{concat, text};
use crate::types::{lemma_view_types, view_types, FunctionType, TypeView};
use super::decl::FunctionDecl;
use super::overload::{
    decl_entry, impl_entry, lemma_entry_parts, overloads_after_add, FunctionDeclOrImpl, FunctionOverloads,
    FunctionTypeOverload, KindOverloadView,
};

verus! {

/// The model of a table of functions by name: each name with its overload
/// table, in the order in which the names were first used.
pub type NamedOverloadsView<T> = Seq<(Seq<char>, Seq<KindOverloadView<T>>)>;

/// Whether a table entry is for the given name.
pub open spec fn name_is<T>(name: Seq<char>) -> spec_fn((Seq<char>, Seq<KindOverloadView<T>>)) -> bool {
    |e: (Seq<char>, Seq<KindOverloadView<T>>)| e.0 == name
}

/// The table with an entry for `name`, and the index of that entry: the first
/// entry for `name` where there is one, else a new empty entry at the end.
pub open spec fn slot_for<T>(entries: NamedOverloadsView<T>, name: Seq<char>) -> (NamedOverloadsView<T>, int) {
    match first_index(entries, name_is::<T>(name)) {
        Some(i) => (entries, i),
        None => (entries.push((name, Seq::empty())), entries.len() as int),
    }
}

/// No two entries of a table are for the same name.
pub open spec fn names_distinct<T>(entries: NamedOverloadsView<T>) -> bool {
    forall|a: int, b: int| 0 <= a < b < entries.len() ==> #[trigger] entries[a].0 != #[trigger] entries[b].0
}

/// The outcome of adding `entry` under `name`: the table has an entry for
/// `name` afterwards in any case; `entry` is added to its overloads unless the
/// member check fails (`member` set and no arguments, when `check_member`) or
/// an entry with the same argument types is there already.
pub open spec fn named_after_add<T: FunctionTypeOverload>(
    entries: NamedOverloadsView<T>,
    name: Seq<char>,
    member: bool,
    entry: T,
    check_member: bool,
) -> (NamedOverloadsView<T>, Result<(), (Code, Seq<char>)>) {
    let (base, i) = slot_for(entries, name);
    if check_member && member && entry.spec_arguments().len() == 0 {
        (base, Err((Code::InvalidArgument, "Member functions cannot have zero arguments"@)))
    } else {
        match overloads_after_add(base[i].1, member, entry) {
            Some(g) => (base.update(i, (name, g)), Ok(())),
            None => (base, Err((Code::InvalidArgument, "Function already exists"@))),
        }
    }
}

/// Whether a result matches a modelled outcome.
pub open spec fn outcome_is<S>(r: Result<S, Error>, o: Result<(), (Code, Seq<char>)>) -> bool {
    match (r, o) {
        (Ok(_), Ok(_)) => true,
        (Err(e), Err(m)) => e@ == m,
        _ => false,
    }
}

fn position_of_name<T>(entries: &Vec<(String, FunctionOverloads<T>)>, name: &str) -> (r: Option<usize>)
    ensures
        match r {
            Some(k) => first_index(view_named(entries@), name_is::<T>(name@)) == Some(k as int) && k
                < entries@.len(),
            None => first_index(view_named(entries@), name_is::<T>(name@)).is_none(),
        },
{
    let ghost p = name_is::<T>(name@);
    let wanted = name.to_string();
    let n = entries.len();
    let mut i: usize = 0;
    while i < n
        invariant
            n == entries@.len(),
            0 <= i <= n,
            p == name_is::<T>(name@),
            wanted@ == name@,
            forall|j: int| 0 <= j < i ==> !p(#[trigger] view_named(entries@)[j]),
        decreases n - i,
    {
        if entries[i].0 == wanted {
            proof {
                lemma_first_index_at(view_named(entries@), p, i as int);
            }
            return Some(i);
        }
        i += 1;
    }
    proof {
        lemma_first_index_none(view_named(entries@), p);
    }
    None
}

/// The model of the pairs of a table.
pub open spec fn view_named<T>(entries: Seq<(String, FunctionOverloads<T>)>) -> NamedOverloadsView<T> {
    entries.map_values(|e: (String, FunctionOverloads<T>)| (e.0@, e.1@))
}

/// Returns the index of the entry for `name`, creating an empty one at the end
/// when there is none.
fn slot<T: FunctionTypeOverload>(entries: &mut Vec<(String, FunctionOverloads<T>)>, name: &str) -> (r: usize)
    ensures
        slot_for(view_named(old(entries)@), name@) == (view_named(final(entries)@), r as int),
        r < final(entries)@.len(),
{
    match position_of_name(entries, name) {
        Some(i) => i,
        None => {
            entries.push((name.to_string(), FunctionOverloads::new()));
            assert(view_named(entries@) =~= view_named(old(entries)@).push(
                (name@, Seq::<KindOverloadView<T>>::empty()),
            ));
            entries.len() - 1
        },
    }
}

/// The declarations and implementations registered with an environment, by
/// function name.
#[derive(Debug)]
pub struct FunctionRegistry<I> {
    entries: Vec<(String, FunctionOverloads<FunctionDeclOrImpl<I>>)>,
}

impl<I> View for FunctionRegistry<I> {
    type V = NamedOverloadsView<FunctionDeclOrImpl<I>>;

    closed spec fn view(&self) -> NamedOverloadsView<FunctionDeclOrImpl<I>> {
        view_named(self.entries@)
    }
}

impl<I> FunctionRegistry<I> {
    /// Creates an empty registry.
    pub fn new() -> (r: Self)
        ensures
            r@ == NamedOverloadsView::<FunctionDeclOrImpl<I>>::empty(),
    {
        let r = FunctionRegistry { entries: Vec::new() };
        assert(r@ =~= NamedOverloadsView::<FunctionDeclOrImpl<I>>::empty());
        r
    }

    /// Registers the implementation `implementation` of signature `decl` under
    /// `name`, as a member (or global) function. The name is in the registry
    /// afterwards even when the registration fails.
    pub fn register(&mut self, name: &str, member: bool, decl: FunctionType, implementation: I) -> (r:
        Result<&mut Self, Error>)
        ensures
            ({
                let (after, outcome) = named_after_add(
                    old(self)@,
                    name@,
                    member,
                    impl_entry(decl, implementation),
                    true,
                );
                &&& outcome_is(r, outcome)
                &&& match r {
                    Ok(s) => s@ == after && final(self)@ == final(s)@,
                    Err(_) => final(self)@ == after,
                }
            }),
    {
        proof {
            lemma_entry_parts(decl, implementation);
            lemma_view_types(decl.arguments@);
        }
        let i = slot(&mut self.entries, name);
        let ghost base = self@;
        proof {
            lemma_first_index(old(self)@, name_is(name@));
            assert(base[i as int].0 == name@);
        }
        let (n, mut overloads) = self.entries.remove(i);
        assert(n@ == name@);
        let r: Result<(), Error> = match overloads.add_impl(member, decl, implementation) {
            Ok(_) => Ok(()),
            Err(e) => Err(e),
        };
        self.entries.insert(i, (n, overloads));
        proof {
            if r.is_ok() {
                assert(self@ =~= base.update(i as int, (name@, overloads@)));
            } else {
                assert(self@ =~= base);
            }
        }
        match r {
            Ok(()) => Ok(self),
            Err(e) => Err(e),
        }
    }

    /// Registers a member function; as [`FunctionRegistry::register`].
    pub fn register_member(&mut self, name: &str, decl: FunctionType, implementation: I) -> (r: Result<
        &mut Self,
        Error,
    >)
        ensures
            ({
                let (after, outcome) = named_after_add(
                    old(self)@,
                    name@,
                    true,
                    impl_entry(decl, implementation),
                    true,
                );
                &&& outcome_is(r, outcome)
                &&& match r {
                    Ok(s) => s@ == after && final(self)@ == final(s)@,
                    Err(_) => final(self)@ == after,
                }
            }),
    {
        self.register(name, true, decl, implementation)
    }

    /// Registers a global function; as [`FunctionRegistry::register`].
    pub fn register_global(&mut self, name: &str, decl: FunctionType, implementation: I) -> (r: Result<
        &mut Self,
        Error,
    >)
        ensures
            ({
                let (after, outcome) = named_after_add(
                    old(self)@,
                    name@,
                    false,
                    impl_entry(decl, implementation),
                    true,
                );
                &&& outcome_is(r, outcome)
                &&& match r {
                    Ok(s) => s@ == after && final(self)@ == final(s)@,
                    Err(_) => final(self)@ == after,
                }
            }),
    {
        self.register(name, false, decl, implementation)
    }

    /// Declares the signature `decl` under `name` without an implementation,
    /// as a member (or global) function. The name is in the registry
    /// afterwards even when the declaration fails.
    pub fn declare_type(&mut self, name: &str, member: bool, decl: FunctionType) -> (r: Result<
        &mut Self,
        Error,
    >)
        ensures
            ({
                let (after, outcome) = named_after_add(
                    old(self)@,
                    name@,
                    member,
                    decl_entry::<I>(decl),
                    true,
                );
                &&& outcome_is(r, outcome)
                &&& match r {
                    Ok(s) => s@ == after && final(self)@ == final(s)@,
                    Err(_) => final(self)@ == after,
                }
            }),
    {
        proof {
            lemma_entry_parts::<I>(decl, arbitrary());
            lemma_view_types(decl.arguments@);
        }
        let i = slot(&mut self.entries, name);
        let ghost base = self@;
        proof {
            lemma_first_index(old(self)@, name_is(name@));
            assert(base[i as int].0 == name@);
        }
        let (n, mut overloads) = self.entries.remove(i);
        assert(n@ == name@);
        let r: Result<(), Error> = match overloads.add_decl(member, decl) {
            Ok(_) => Ok(()),
            Err(e) => Err(e),
        };
        self.entries.insert(i, (n, overloads));
        proof {
            if r.is_ok() {
                assert(self@ =~= base.update(i as int, (name@, overloads@)));
            } else {
                assert(self@ =~= base);
            }
        }
        match r {
            Ok(()) => Ok(self),
            Err(e) => Err(e),
        }
    }

    /// Declares the signature of the function type `D` under `name`, as a
    /// member (or global) function; as [`FunctionRegistry::declare_type`] with
    /// the signature whose argument and result types are those of `D`.
    pub fn declare<D: FunctionDecl<R, Args>, R, Args>(&mut self, name: &str, member: bool) -> (r: Result<
        &mut Self,
        Error,
    >)
        ensures
            exists|decl: FunctionType|
                {
                    &&& view_types(decl.arguments@) == D::spec_arguments()
                    &&& decl.result@ == D::spec_result()
                    &&& ({
                        let (after, outcome) = named_after_add(
                            old(self)@,
                            name@,
                            member,
                            decl_entry::<I>(decl),
                            true,
                        );
                        &&& outcome_is(r, outcome)
                &&& match r {
                    Ok(s) => s@ == after && final(self)@ == final(s)@,
                    Err(_) => final(self)@ == after,
                }
                    })
                },
    {
        let decl = D::function_type();
        let ghost d = decl;
        let r = self.declare_type(name, member, decl);
        assert(view_types(d.arguments@) == D::spec_arguments());
        r
    }

    /// Declares a member function; as [`FunctionRegistry::declare`].
    pub fn declare_member<D: FunctionDecl<R, Args>, R, Args>(&mut self, name: &str) -> (r: Result<
        &mut Self,
        Error,
    >)
        ensures
            exists|decl: FunctionType|
                {
                    &&& view_types(decl.arguments@) == D::spec_arguments()
                    &&& decl.result@ == D::spec_result()
                    &&& ({
                        let (after, outcome) = named_after_add(
                            old(self)@,
                            name@,
                            true,
                            decl_entry::<I>(decl),
                            true,
                        );
                        &&& outcome_is(r, outcome)
                &&& match r {
                    Ok(s) => s@ == after && final(self)@ == final(s)@,
                    Err(_) => final(self)@ == after,
                }
                    })
                },
    {
        self.declare::<D, R, Args>(name, true)
    }

    /// Declares a global function; as [`FunctionRegistry::declare`].
    pub fn declare_global<D: FunctionDecl<R, Args>, R, Args>(&mut self, name: &str) -> (r: Result<
        &mut Self,
        Error,
    >)
        ensures
            exists|decl: FunctionType|
                {
                    &&& view_types(decl.arguments@) == D::spec_arguments()
                    &&& decl.result@ == D::spec_result()
                    &&& ({
                        let (after, outcome) = named_after_add(
                            old(self)@,
                            name@,
                            false,
                            decl_entry::<I>(decl),
                            true,
                        );
                        &&& outcome_is(r, outcome)
                &&& match r {
                    Ok(s) => s@ == after && final(self)@ == final(s)@,
                    Err(_) => final(self)@ == after,
                }
                    })
                },
    {
        self.declare::<D, R, Args>(name, false)
    }

    /// Returns the overloads registered under `name`.
    pub fn find(&self, name: &str) -> (r: Option<&FunctionOverloads<FunctionDeclOrImpl<I>>>)
        ensures
            match first_index(self@, name_is::<FunctionDeclOrImpl<I>>(name@)) {
                Some(i) => r.is_some() && r.unwrap()@ == self@[i].1,
                None => r.is_none(),
            },
    {
        match position_of_name(&self.entries, name) {
            Some(i) => Some(&self.entries[i].1),
            None => None,
        }
    }

    /// Returns the overloads registered under `name`, for change.
    pub fn find_mut(&mut self, name: &str) -> (r: Option<&mut FunctionOverloads<FunctionDeclOrImpl<I>>>)
        ensures
            match first_index(old(self)@, name_is::<FunctionDeclOrImpl<I>>(name@)) {
                Some(i) => {
                    &&& r matches Some(m) && m@ == old(self)@[i].1 && final(self)@ == old(
                        self,
                    )@.update(i, (name@, final(m)@))
                    &&& r matches Some(m) && (final(m)@ == m@ ==> final(self)@ == old(self)@)
                },
                None => r.is_none() && final(self)@ == old(self)@,
            },
    {
        match position_of_name(&self.entries, name) {
            Some(i) => {
                proof {
                    lemma_first_index(self@, name_is::<FunctionDeclOrImpl<I>>(name@));
                    assert(old(self)@.update(i as int, (name@, old(self)@[i as int].1)) =~= old(self)@);
                }
                Some(&mut self.entries[i].1)
            },
            None => None,
        }
    }

    /// Returns the names with their overloads.
    pub fn entries(&self) -> (r: &[(String, FunctionOverloads<FunctionDeclOrImpl<I>>)])
        ensures
            view_named(r@) == self@,
    {
        self.entries.as_slice()
    }

    /// Removes the overloads registered under `name`; fails with
    /// [`Code::NotFound`] when there are none.
    pub fn remove(&mut self, name: &str) -> (r: Result<(), Error>)
        ensures
            match first_index(old(self)@, name_is::<FunctionDeclOrImpl<I>>(name@)) {
                Some(i) => r.is_ok() && final(self)@ == old(self)@.remove(i),
                None => {
                    &&& r matches Err(e) && e@ == (Code::NotFound, "Function '"@ + name@
                        + "' not found"@)
                    &&& final(self)@ == old(self)@
                },
            },
    {
        match position_of_name(&self.entries, name) {
            Some(i) => {
                self.entries.remove(i);
                assert(self@ =~= old(self)@.remove(i as int));
                Ok(())
            },
            None => {
                let m = concat(concat(text("Function '"), name), "' not found");
                Err(Error::not_found(m.as_str()))
            },
        }
    }

    /// Removes every name.
    pub fn clear(&mut self)
        ensures
            final(self)@ == NamedOverloadsView::<FunctionDeclOrImpl<I>>::empty(),
    {
        self.entries.clear();
        assert(self@ =~= NamedOverloadsView::<FunctionDeclOrImpl<I>>::empty());
    }

    /// Returns the number of names.
    pub fn len(&self) -> (r: usize)
        ensures
            r == self@.len(),
    {
        self.entries.len()
    }

    /// Returns whether there are no names.
    pub fn is_empty(&self) -> (r: bool)
        ensures
            r == (self@.len() == 0),
    {
        self.entries.len() == 0
    }
}

/// The implementations bound to an activation, by function name.
#[derive(Debug)]
pub struct FunctionBindings<F> {
    entries: Vec<(String, FunctionOverloads<F>)>,
}

impl<F> View for FunctionBindings<F> {
    type V = NamedOverloadsView<F>;

    closed spec fn view(&self) -> NamedOverloadsView<F> {
        view_named(self.entries@)
    }
}

impl<F: FunctionTypeOverload> FunctionBindings<F> {
    /// Creates an empty table.
    pub fn new() -> (r: Self)
        ensures
            r@ == NamedOverloadsView::<F>::empty(),
    {
        let r = FunctionBindings { entries: Vec::new() };
        assert(r@ =~= NamedOverloadsView::<F>::empty());
        r
    }

    /// Binds the implementation `f` under `name`, as a member (or global)
    /// function. The name is in the table afterwards even when binding fails.
    pub fn bind(&mut self, name: &str, member: bool, f: F) -> (r: Result<&mut Self, Error>)
        ensures
            ({
                let (after, outcome) = named_after_add(old(self)@, name@, member, f, false);
                &&& outcome_is(r, outcome)
                &&& match r {
                    Ok(s) => s@ == after && final(self)@ == final(s)@,
                    Err(_) => final(self)@ == after,
                }
            }),
    {
        let i = slot(&mut self.entries, name);
        let ghost base = self@;
        proof {
            lemma_first_index(old(self)@, name_is(name@));
            assert(base[i as int].0 == name@);
        }
        let (n, mut overloads) = self.entries.remove(i);
        assert(n@ == name@);
        let r: Result<(), Error> = match overloads.add(member, f) {
            Ok(_) => Ok(()),
            Err(e) => Err(e),
        };
        self.entries.insert(i, (n, overloads));
        proof {
            if r.is_ok() {
                assert(self@ =~= base.update(i as int, (name@, overloads@)));
            } else {
                assert(self@ =~= base);
            }
        }
        match r {
            Ok(()) => Ok(self),
            Err(e) => Err(e),
        }
    }

    /// Binds a member function; as [`FunctionBindings::bind`].
    pub fn bind_member(&mut self, name: &str, f: F) -> (r: Result<&mut Self, Error>)
        ensures
            ({
                let (after, outcome) = named_after_add(old(self)@, name@, true, f, false);
                &&& outcome_is(r, outcome)
                &&& match r {
                    Ok(s) => s@ == after && final(self)@ == final(s)@,
                    Err(_) => final(self)@ == after,
                }
            }),
    {
        self.bind(name, true, f)
    }

    /// Binds a global function; as [`FunctionBindings::bind`].
    pub fn bind_global(&mut self, name: &str, f: F) -> (r: Result<&mut Self, Error>)
        ensures
            ({
                let (after, outcome) = named_after_add(old(self)@, name@, false, f, false);
                &&& outcome_is(r, outcome)
                &&& match r {
                    Ok(s) => s@ == after && final(self)@ == final(s)@,
                    Err(_) => final(self)@ == after,
                }
            }),
    {
        self.bind(name, false, f)
    }

    /// Returns the overloads bound under `name`.
    pub fn find(&self, name: &str) -> (r: Option<&FunctionOverloads<F>>)
        ensures
            match first_index(self@, name_is::<F>(name@)) {
                Some(i) => r.is_some() && r.unwrap()@ == self@[i].1,
                None => r.is_none(),
            },
    {
        match position_of_name(&self.entries, name) {
            Some(i) => Some(&self.entries[i].1),
            None => None,
        }
    }

    /// Returns the overloads bound under `name`, for change.
    pub fn find_mut(&mut self, name: &str) -> (r: Option<&mut FunctionOverloads<F>>)
        ensures
            match first_index(old(self)@, name_is::<F>(name@)) {
                Some(i) => {
                    &&& r matches Some(m) && m@ == old(self)@[i].1 && final(self)@ == old(
                        self,
                    )@.update(i, (name@, final(m)@))
                    &&& r matches Some(m) && (final(m)@ == m@ ==> final(self)@ == old(self)@)
                },
                None => r.is_none() && final(self)@ == old(self)@,
            },
    {
        match position_of_name(&self.entries, name) {
            Some(i) => {
                proof {
                    lemma_first_index(self@, name_is::<F>(name@));
                    assert(old(self)@.update(i as int, (name@, old(self)@[i as int].1)) =~= old(self)@);
                }
                Some(&mut self.entries[i].1)
            },
            None => None,
        }
    }

    /// Returns the names with their overloads.
    pub fn entries(&self) -> (r: &[(String, FunctionOverloads<F>)])
        ensures
            view_named(r@) == self@,
    {
        self.entries.as_slice()
    }

    /// Removes the overloads bound under `name`; fails with
    /// [`Code::NotFound`] when there are none.
    pub fn remove(&mut self, name: &str) -> (r: Result<(), Error>)
        ensures
            match first_index(old(self)@, name_is::<F>(name@)) {
                Some(i) => r.is_ok() && final(self)@ == old(self)@.remove(i),
                None => {
                    &&& r matches Err(e) && e@ == (Code::NotFound, "Function "@ + name@
                        + " not found"@)
                    &&& final(self)@ == old(self)@
                },
            },
    {
        match position_of_name(&self.entries, name) {
            Some(i) => {
                self.entries.remove(i);
                assert(self@ =~= old(self)@.remove(i as int));
                Ok(())
            },
            None => {
                let m = concat(concat(text("Function "), name), " not found");
                Err(Error::not_found(m.as_str()))
            },
        }
    }

    /// Removes every name.
    pub fn clear(&mut self)
        ensures
            final(self)@ == NamedOverloadsView::<F>::empty(),
    {
        self.entries.clear();
        assert(self@ =~= NamedOverloadsView::<F>::empty());
    }
}

} // verus!
