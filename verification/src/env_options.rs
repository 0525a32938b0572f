//! The options from which an environment is built.
use vstd::prelude::*;

verus! {

/// The options of an environment: its container name and which libraries and
/// extensions are enabled.
#[derive(Debug)]
pub struct EnvInnerOptions {
    /// The container (namespace) in which names are resolved; empty for none.
    pub container: String,
    /// The standard library.
    pub enable_standard: bool,
    /// Optional values.
    pub enable_optional: bool,
    /// The bindings extension.
    pub enable_ext_bindings: bool,
    /// The encoders extension.
    pub enable_ext_encoders: bool,
    /// The lists extension.
    pub enable_ext_lists: bool,
    /// The math extension.
    pub enable_ext_math: bool,
    /// The protobuf extension.
    pub enable_ext_proto: bool,
    /// The regex extension; it needs optional values.
    pub enable_ext_regex: bool,
    /// The re extension.
    pub enable_ext_re: bool,
    /// The sets extension.
    pub enable_ext_sets: bool,
    /// The strings extension.
    pub enable_ext_strings: bool,
    /// The select optimization.
    pub enable_ext_select_optimization: bool,
}

impl Default for EnvInnerOptions {
    /// No container, the standard library enabled, everything else disabled.
    fn default() -> (r: Self)
        ensures
            r.container@ == Seq::<char>::empty(),
            r.enable_standard,
            !r.enable_optional,
            !r.enable_ext_bindings,
            !r.enable_ext_encoders,
            !r.enable_ext_lists,
            !r.enable_ext_math,
            !r.enable_ext_proto,
            !r.enable_ext_regex,
            !r.enable_ext_re,
            !r.enable_ext_sets,
            !r.enable_ext_strings,
            !r.enable_ext_select_optimization,
    {
        EnvInnerOptions {
            container: String::new(),
            enable_standard: true,
            enable_optional: false,
            enable_ext_bindings: false,
            enable_ext_encoders: false,
            enable_ext_lists: false,
            enable_ext_math: false,
            enable_ext_proto: false,
            enable_ext_regex: false,
            enable_ext_re: false,
            enable_ext_sets: false,
            enable_ext_strings: false,
            enable_ext_select_optimization: false,
        }
    }
}

/// Whether the options are consistent: the regex extension is only enabled
/// together with optional values.
pub open spec fn options_consistent(o: EnvInnerOptions) -> bool {
    o.enable_ext_regex ==> o.enable_optional
}

impl EnvInnerOptions {
    /// Makes the options consistent: enabling the regex extension enables
    /// optional values too. Nothing else changes.
    pub fn check_consistency(&mut self)
        ensures
            *final(self) == (EnvInnerOptions {
                enable_optional: old(self).enable_optional || old(self).enable_ext_regex,
                ..*old(self)
            }),
    {
        if self.enable_ext_regex && !self.enable_optional {
            self.enable_optional = true;
        }
    }
}

/// A library that the compiler of an environment is given.
#[derive(Clone, Copy, Debug, PartialEq, Eq, Structural)]
pub enum CompilerLibrary {
    /// The standard library.
    Standard,
    /// Optional values.
    Optional,
    /// The bindings extension.
    Bindings,
    /// The encoders extension.
    Encoders,
    /// The lists extension.
    Lists,
    /// The math extension.
    Math,
    /// The protobuf extension.
    Proto,
    /// The regex extension.
    Regex,
    /// The re extension.
    Re,
    /// The sets extension.
    Sets,
    /// The strings extension.
    Strings,
}

/// What the runtime of an environment is given, in addition to the
/// registered functions.
#[derive(Clone, Copy, Debug, PartialEq, Eq, Structural)]
pub enum RuntimeExtension {
    /// The standard functions.
    Standard,
    /// The optional-value functions.
    Optional,
    /// The encoders functions.
    Encoders,
    /// The lists functions.
    Lists,
    /// The math functions.
    Math,
    /// The regex functions.
    Regex,
    /// The re functions.
    Re,
    /// The sets functions.
    Sets,
    /// The strings functions.
    Strings,
    /// The select optimization.
    SelectOptimization,
}

/// The items whose flag is set, in order.
pub open spec fn enabled<L>(s: Seq<(bool, L)>) -> Seq<L>
    decreases s.len(),
{
    if s.len() == 0 {
        Seq::empty()
    } else {
        enabled(s.drop_last()) + if s.last().0 {
            seq![s.last().1]
        } else {
            Seq::empty()
        }
    }
}

proof fn lemma_enabled_step<L>(s: Seq<(bool, L)>, k: int)
    requires
        0 <= k < s.len(),
    ensures
        enabled(s.take(k + 1)) == enabled(s.take(k)) + if s[k].0 {
            seq![s[k].1]
        } else {
            Seq::empty()
        },
{
    assert(s.take(k + 1).drop_last() =~= s.take(k));
}

/// The items whose flag is set, in order.
fn pick_enabled<L: Copy>(flags: &Vec<(bool, L)>) -> (r: Vec<L>)
    ensures
        r@ == enabled(flags@),
{
    let mut r: Vec<L> = Vec::new();
    let n = flags.len();
    let mut i: usize = 0;
    assert(flags@.take(0) =~= Seq::<(bool, L)>::empty());
    while i < n
        invariant
            n == flags@.len(),
            0 <= i <= n,
            r@ == enabled(flags@.take(i as int)),
        decreases n - i,
    {
        proof {
            lemma_enabled_step(flags@, i as int);
        }
        let (flag, item) = flags[i];
        if flag {
            r.push(item);
        }
        assert(r@ =~= enabled(flags@.take(i + 1)));
        i += 1;
    }
    assert(flags@.take(n as int) =~= flags@);
    r
}

/// Each compiler library with whether the options enable it, in the order in
/// which libraries are added: standard, optional, then the extensions
/// bindings, encoders, lists, math, proto, regex, re, sets and strings.
pub open spec fn compiler_flags(o: EnvInnerOptions) -> Seq<(bool, CompilerLibrary)> {
    seq![
        (o.enable_standard, CompilerLibrary::Standard),
        (o.enable_optional, CompilerLibrary::Optional),
        (o.enable_ext_bindings, CompilerLibrary::Bindings),
        (o.enable_ext_encoders, CompilerLibrary::Encoders),
        (o.enable_ext_lists, CompilerLibrary::Lists),
        (o.enable_ext_math, CompilerLibrary::Math),
        (o.enable_ext_proto, CompilerLibrary::Proto),
        (o.enable_ext_regex, CompilerLibrary::Regex),
        (o.enable_ext_re, CompilerLibrary::Re),
        (o.enable_ext_sets, CompilerLibrary::Sets),
        (o.enable_ext_strings, CompilerLibrary::Strings),
    ]
}

/// The compiler libraries for the options, in the order in which they are added.
pub open spec fn compiler_libraries_of(o: EnvInnerOptions) -> Seq<CompilerLibrary> {
    enabled(compiler_flags(o))
}

/// Each runtime extension with whether the options enable it, in order:
/// standard, optional, then the functions of the extensions encoders, lists,
/// math, regex, re, sets and strings, and the select optimization. The
/// bindings and protobuf extensions only concern the compiler.
pub open spec fn runtime_flags(o: EnvInnerOptions) -> Seq<(bool, RuntimeExtension)> {
    seq![
        (o.enable_standard, RuntimeExtension::Standard),
        (o.enable_optional, RuntimeExtension::Optional),
        (o.enable_ext_encoders, RuntimeExtension::Encoders),
        (o.enable_ext_lists, RuntimeExtension::Lists),
        (o.enable_ext_math, RuntimeExtension::Math),
        (o.enable_ext_regex, RuntimeExtension::Regex),
        (o.enable_ext_re, RuntimeExtension::Re),
        (o.enable_ext_sets, RuntimeExtension::Sets),
        (o.enable_ext_strings, RuntimeExtension::Strings),
        (o.enable_ext_select_optimization, RuntimeExtension::SelectOptimization),
    ]
}

/// What the runtime is given for the options, in order.
pub open spec fn runtime_extensions_of(o: EnvInnerOptions) -> Seq<RuntimeExtension> {
    enabled(runtime_flags(o))
}

impl EnvInnerOptions {
    /// Returns the compiler libraries that these options call for, in the order
    /// in which they are added.
    pub fn compiler_libraries(&self) -> (r: Vec<CompilerLibrary>)
        ensures
            r@ == compiler_libraries_of(*self),
    {
        let mut flags: Vec<(bool, CompilerLibrary)> = Vec::new();
        flags.push((self.enable_standard, CompilerLibrary::Standard));
        flags.push((self.enable_optional, CompilerLibrary::Optional));
        flags.push((self.enable_ext_bindings, CompilerLibrary::Bindings));
        flags.push((self.enable_ext_encoders, CompilerLibrary::Encoders));
        flags.push((self.enable_ext_lists, CompilerLibrary::Lists));
        flags.push((self.enable_ext_math, CompilerLibrary::Math));
        flags.push((self.enable_ext_proto, CompilerLibrary::Proto));
        flags.push((self.enable_ext_regex, CompilerLibrary::Regex));
        flags.push((self.enable_ext_re, CompilerLibrary::Re));
        flags.push((self.enable_ext_sets, CompilerLibrary::Sets));
        flags.push((self.enable_ext_strings, CompilerLibrary::Strings));
        assert(flags@ =~= compiler_flags(*self));
        pick_enabled(&flags)
    }

    /// Returns what the runtime is given for these options, in order.
    pub fn runtime_extensions(&self) -> (r: Vec<RuntimeExtension>)
        ensures
            r@ == runtime_extensions_of(*self),
    {
        let mut flags: Vec<(bool, RuntimeExtension)> = Vec::new();
        flags.push((self.enable_standard, RuntimeExtension::Standard));
        flags.push((self.enable_optional, RuntimeExtension::Optional));
        flags.push((self.enable_ext_encoders, RuntimeExtension::Encoders));
        flags.push((self.enable_ext_lists, RuntimeExtension::Lists));
        flags.push((self.enable_ext_math, RuntimeExtension::Math));
        flags.push((self.enable_ext_regex, RuntimeExtension::Regex));
        flags.push((self.enable_ext_re, RuntimeExtension::Re));
        flags.push((self.enable_ext_sets, RuntimeExtension::Sets));
        flags.push((self.enable_ext_strings, RuntimeExtension::Strings));
        flags.push((self.enable_ext_select_optimization, RuntimeExtension::SelectOptimization));
        assert(flags@ =~= runtime_flags(*self));
        pick_enabled(&flags)
    }

    /// Returns whether the runtime resolves qualified type identifiers, which
    /// it does exactly where optional values are enabled.
    pub fn qualified_type_identifiers(&self) -> (r: bool)
        ensures
            r == self.enable_optional,
    {
        self.enable_optional
    }
}

/// Whether the options enable a compiler library: each library by its own flag.
pub open spec fn library_enabled(o: EnvInnerOptions, x: CompilerLibrary) -> bool {
    match x {
        CompilerLibrary::Standard => o.enable_standard,
        CompilerLibrary::Optional => o.enable_optional,
        CompilerLibrary::Bindings => o.enable_ext_bindings,
        CompilerLibrary::Encoders => o.enable_ext_encoders,
        CompilerLibrary::Lists => o.enable_ext_lists,
        CompilerLibrary::Math => o.enable_ext_math,
        CompilerLibrary::Proto => o.enable_ext_proto,
        CompilerLibrary::Regex => o.enable_ext_regex,
        CompilerLibrary::Re => o.enable_ext_re,
        CompilerLibrary::Sets => o.enable_ext_sets,
        CompilerLibrary::Strings => o.enable_ext_strings,
    }
}

/// The place of a compiler library in the order in which libraries are added.
pub open spec fn library_rank(x: CompilerLibrary) -> int {
    match x {
        CompilerLibrary::Standard => 0,
        CompilerLibrary::Optional => 1,
        CompilerLibrary::Bindings => 2,
        CompilerLibrary::Encoders => 3,
        CompilerLibrary::Lists => 4,
        CompilerLibrary::Math => 5,
        CompilerLibrary::Proto => 6,
        CompilerLibrary::Regex => 7,
        CompilerLibrary::Re => 8,
        CompilerLibrary::Sets => 9,
        CompilerLibrary::Strings => 10,
    }
}

/// Whether the options enable a runtime extension: each by its own flag.
pub open spec fn extension_enabled(o: EnvInnerOptions, x: RuntimeExtension) -> bool {
    match x {
        RuntimeExtension::Standard => o.enable_standard,
        RuntimeExtension::Optional => o.enable_optional,
        RuntimeExtension::Encoders => o.enable_ext_encoders,
        RuntimeExtension::Lists => o.enable_ext_lists,
        RuntimeExtension::Math => o.enable_ext_math,
        RuntimeExtension::Regex => o.enable_ext_regex,
        RuntimeExtension::Re => o.enable_ext_re,
        RuntimeExtension::Sets => o.enable_ext_sets,
        RuntimeExtension::Strings => o.enable_ext_strings,
        RuntimeExtension::SelectOptimization => o.enable_ext_select_optimization,
    }
}

/// The place of a runtime extension in the order in which extensions are added.
pub open spec fn extension_rank(x: RuntimeExtension) -> int {
    match x {
        RuntimeExtension::Standard => 0,
        RuntimeExtension::Optional => 1,
        RuntimeExtension::Encoders => 2,
        RuntimeExtension::Lists => 3,
        RuntimeExtension::Math => 4,
        RuntimeExtension::Regex => 5,
        RuntimeExtension::Re => 6,
        RuntimeExtension::Sets => 7,
        RuntimeExtension::Strings => 8,
        RuntimeExtension::SelectOptimization => 9,
    }
}

/// An item is among the enabled items exactly when some pair sets its flag.
proof fn lemma_enabled_contains<L>(s: Seq<(bool, L)>, x: L)
    ensures
        enabled(s).contains(x) <==> exists|i: int| 0 <= i < s.len() && #[trigger] s[i].0 && s[i].1 == x,
    decreases s.len(),
{
    if s.len() > 0 {
        let d = s.drop_last();
        lemma_enabled_contains(d, x);
        let ed = enabled(d);
        let e = enabled(s);
        let last = s.len() - 1;
        if e.contains(x) {
            let k = choose|k: int| 0 <= k < e.len() && e[k] == x;
            if k < ed.len() {
                assert(ed[k] == x);
                assert(ed.contains(x));
                let i = choose|i: int| 0 <= i < d.len() && #[trigger] d[i].0 && d[i].1 == x;
                assert(s[i] == d[i]);
            } else {
                assert(s[last].0 && s[last].1 == x);
            }
        }
        if exists|i: int| 0 <= i < s.len() && #[trigger] s[i].0 && s[i].1 == x {
            let i = choose|i: int| 0 <= i < s.len() && #[trigger] s[i].0 && s[i].1 == x;
            if i < last {
                assert(d[i] == s[i]);
                assert(d[i].0);
                assert(ed.contains(x));
                let k = choose|k: int| 0 <= k < ed.len() && ed[k] == x;
                assert(e[k] == x);
            } else {
                assert(e[ed.len() as int] == x);
            }
        }
    }
}

/// When the items of the pairs come in increasing rank, so do the enabled
/// items.
proof fn lemma_enabled_ordered<L>(s: Seq<(bool, L)>, rank: spec_fn(L) -> int)
    requires
        forall|i: int, j: int| 0 <= i < j < s.len() ==> rank(#[trigger] s[i].1) < rank(#[trigger] s[j].1),
    ensures
        forall|i: int, j: int|
            0 <= i < j < enabled(s).len() ==> rank(#[trigger] enabled(s)[i]) < rank(#[trigger] enabled(s)[j]),
    decreases s.len(),
{
    if s.len() > 0 {
        let d = s.drop_last();
        assert forall|i: int, j: int| 0 <= i < j < d.len() implies rank(#[trigger] d[i].1) < rank(
            #[trigger] d[j].1,
        ) by {
            assert(d[i] == s[i] && d[j] == s[j]);
        }
        lemma_enabled_ordered(d, rank);
        let ed = enabled(d);
        let e = enabled(s);
        assert forall|i: int, j: int| 0 <= i < j < e.len() implies rank(#[trigger] e[i]) < rank(
            #[trigger] e[j],
        ) by {
            if j < ed.len() {
                assert(e[i] == ed[i] && e[j] == ed[j]);
            } else {
                assert(e[i] == ed[i]);
                assert(e[j] == s[s.len() - 1].1);
                assert(ed.contains(ed[i]));
                lemma_enabled_contains(d, ed[i]);
                let k = choose|k: int| 0 <= k < d.len() && #[trigger] d[k].0 && d[k].1 == ed[i];
                assert(d[k] == s[k]);
            }
        }
    }
}

/// A compiler library is among those the options call for exactly when its own
/// flag is set, and the libraries come in the fixed order, each at most once.
pub proof fn law_compiler_libraries(o: EnvInnerOptions)
    ensures
        forall|x: CompilerLibrary| #[trigger] compiler_libraries_of(o).contains(x) <==> library_enabled(o, x),
        forall|i: int, j: int|
            0 <= i < j < compiler_libraries_of(o).len() ==> library_rank(#[trigger] compiler_libraries_of(o)[i]) < library_rank(
                #[trigger] compiler_libraries_of(o)[j],
            ),
{
    let s = compiler_flags(o);
    assert(s.len() == 11);
    assert forall|i: int| 0 <= i < 11 implies library_rank(#[trigger] s[i].1) == i && s[i].0 == library_enabled(
        o,
        s[i].1,
    ) by {
        if i == 0 {} else if i == 1 {} else if i == 2 {} else if i == 3 {} else if i == 4 {} else if i == 5 {} else if i == 6 {} else if i == 7 {} else if i == 8 {} else if i == 9 {} else if i == 10 {}
    }
    lemma_enabled_ordered(s, |x: CompilerLibrary| library_rank(x));
    assert forall|x: CompilerLibrary| #[trigger] compiler_libraries_of(o).contains(x) <==> library_enabled(o, x) by {
        lemma_enabled_contains(s, x);
        if compiler_libraries_of(o).contains(x) {
            let i = choose|i: int| 0 <= i < s.len() && #[trigger] s[i].0 && s[i].1 == x;
            assert(library_rank(s[i].1) == i);
            assert(s[i].0 == library_enabled(o, s[i].1));
        }
        match x {
            CompilerLibrary::Standard => {
                assert(s[0] == (o.enable_standard, CompilerLibrary::Standard));
                if o.enable_standard {
                    assert(s[0].0 && s[0].1 == x);
                }
            },
            CompilerLibrary::Optional => {
                assert(s[1] == (o.enable_optional, CompilerLibrary::Optional));
                if o.enable_optional {
                    assert(s[1].0 && s[1].1 == x);
                }
            },
            CompilerLibrary::Bindings => {
                assert(s[2] == (o.enable_ext_bindings, CompilerLibrary::Bindings));
                if o.enable_ext_bindings {
                    assert(s[2].0 && s[2].1 == x);
                }
            },
            CompilerLibrary::Encoders => {
                assert(s[3] == (o.enable_ext_encoders, CompilerLibrary::Encoders));
                if o.enable_ext_encoders {
                    assert(s[3].0 && s[3].1 == x);
                }
            },
            CompilerLibrary::Lists => {
                assert(s[4] == (o.enable_ext_lists, CompilerLibrary::Lists));
                if o.enable_ext_lists {
                    assert(s[4].0 && s[4].1 == x);
                }
            },
            CompilerLibrary::Math => {
                assert(s[5] == (o.enable_ext_math, CompilerLibrary::Math));
                if o.enable_ext_math {
                    assert(s[5].0 && s[5].1 == x);
                }
            },
            CompilerLibrary::Proto => {
                assert(s[6] == (o.enable_ext_proto, CompilerLibrary::Proto));
                if o.enable_ext_proto {
                    assert(s[6].0 && s[6].1 == x);
                }
            },
            CompilerLibrary::Regex => {
                assert(s[7] == (o.enable_ext_regex, CompilerLibrary::Regex));
                if o.enable_ext_regex {
                    assert(s[7].0 && s[7].1 == x);
                }
            },
            CompilerLibrary::Re => {
                assert(s[8] == (o.enable_ext_re, CompilerLibrary::Re));
                if o.enable_ext_re {
                    assert(s[8].0 && s[8].1 == x);
                }
            },
            CompilerLibrary::Sets => {
                assert(s[9] == (o.enable_ext_sets, CompilerLibrary::Sets));
                if o.enable_ext_sets {
                    assert(s[9].0 && s[9].1 == x);
                }
            },
            CompilerLibrary::Strings => {
                assert(s[10] == (o.enable_ext_strings, CompilerLibrary::Strings));
                if o.enable_ext_strings {
                    assert(s[10].0 && s[10].1 == x);
                }
            },
        }
    }
}

/// A runtime extension is among those the options call for exactly when its own
/// flag is set, and the extensions come in the fixed order, each at most once.
pub proof fn law_runtime_extensions(o: EnvInnerOptions)
    ensures
        forall|x: RuntimeExtension| #[trigger] runtime_extensions_of(o).contains(x) <==> extension_enabled(o, x),
        forall|i: int, j: int|
            0 <= i < j < runtime_extensions_of(o).len() ==> extension_rank(#[trigger] runtime_extensions_of(o)[i]) < extension_rank(
                #[trigger] runtime_extensions_of(o)[j],
            ),
{
    let s = runtime_flags(o);
    assert(s.len() == 10);
    assert forall|i: int| 0 <= i < 10 implies extension_rank(#[trigger] s[i].1) == i && s[i].0 == extension_enabled(
        o,
        s[i].1,
    ) by {
        if i == 0 {} else if i == 1 {} else if i == 2 {} else if i == 3 {} else if i == 4 {} else if i == 5 {} else if i == 6 {} else if i == 7 {} else if i == 8 {} else if i == 9 {}
    }
    lemma_enabled_ordered(s, |x: RuntimeExtension| extension_rank(x));
    assert forall|x: RuntimeExtension| #[trigger] runtime_extensions_of(o).contains(x) <==> extension_enabled(o, x) by {
        lemma_enabled_contains(s, x);
        if runtime_extensions_of(o).contains(x) {
            let i = choose|i: int| 0 <= i < s.len() && #[trigger] s[i].0 && s[i].1 == x;
            assert(extension_rank(s[i].1) == i);
            assert(s[i].0 == extension_enabled(o, s[i].1));
        }
        match x {
            RuntimeExtension::Standard => {
                assert(s[0] == (o.enable_standard, RuntimeExtension::Standard));
                if o.enable_standard {
                    assert(s[0].0 && s[0].1 == x);
                }
            },
            RuntimeExtension::Optional => {
                assert(s[1] == (o.enable_optional, RuntimeExtension::Optional));
                if o.enable_optional {
                    assert(s[1].0 && s[1].1 == x);
                }
            },
            RuntimeExtension::Encoders => {
                assert(s[2] == (o.enable_ext_encoders, RuntimeExtension::Encoders));
                if o.enable_ext_encoders {
                    assert(s[2].0 && s[2].1 == x);
                }
            },
            RuntimeExtension::Lists => {
                assert(s[3] == (o.enable_ext_lists, RuntimeExtension::Lists));
                if o.enable_ext_lists {
                    assert(s[3].0 && s[3].1 == x);
                }
            },
            RuntimeExtension::Math => {
                assert(s[4] == (o.enable_ext_math, RuntimeExtension::Math));
                if o.enable_ext_math {
                    assert(s[4].0 && s[4].1 == x);
                }
            },
            RuntimeExtension::Regex => {
                assert(s[5] == (o.enable_ext_regex, RuntimeExtension::Regex));
                if o.enable_ext_regex {
                    assert(s[5].0 && s[5].1 == x);
                }
            },
            RuntimeExtension::Re => {
                assert(s[6] == (o.enable_ext_re, RuntimeExtension::Re));
                if o.enable_ext_re {
                    assert(s[6].0 && s[6].1 == x);
                }
            },
            RuntimeExtension::Sets => {
                assert(s[7] == (o.enable_ext_sets, RuntimeExtension::Sets));
                if o.enable_ext_sets {
                    assert(s[7].0 && s[7].1 == x);
                }
            },
            RuntimeExtension::Strings => {
                assert(s[8] == (o.enable_ext_strings, RuntimeExtension::Strings));
                if o.enable_ext_strings {
                    assert(s[8].0 && s[8].1 == x);
                }
            },
            RuntimeExtension::SelectOptimization => {
                assert(s[9] == (o.enable_ext_select_optimization, RuntimeExtension::SelectOptimization));
                if o.enable_ext_select_optimization {
                    assert(s[9].0 && s[9].1 == x);
                }
            },
        }
    }
}

/// After `check_consistency` the options are consistent, and checking them
/// again changes nothing.
pub proof fn law_check_consistency(o: EnvInnerOptions)
    ensures
        options_consistent(EnvInnerOptions {
            enable_optional: o.enable_optional || o.enable_ext_regex,
            ..o
        }),
        options_consistent(o) ==> (EnvInnerOptions {
            enable_optional: o.enable_optional || o.enable_ext_regex,
            ..o
        }) == o,
{
}

} // verus!
