//! Joining and concatenating text.
use vstd::prelude::*;
use itertools::Itertools;

verus! {

/// The parts joined in order, with `sep` between each two consecutive parts.
pub open spec fn join_seq(parts: Seq<Seq<char>>, sep: Seq<char>) -> Seq<char>
    decreases parts.len(),
{
    if parts.len() == 0 {
        Seq::empty()
    } else if parts.len() == 1 {
        parts[0]
    } else {
        join_seq(parts.drop_last(), sep) + sep + parts.last()
    }
}

/// The character sequences of a sequence of strings.
pub open spec fn strings_view(v: Seq<String>) -> Seq<Seq<char>> {
    v.map_values(|s: String| s@)
}

/// Joins `parts` with `sep` between consecutive parts.
///
/// Calls `itertools::Itertools::format` on the parts and formats the result once:
/// the first part, then for each further part `sep` followed by that part. The
/// contract claims exactly this text.
#[verifier::external_body]
pub(crate) fn join_strings(parts: &Vec<String>, sep: &str) -> (r: String)
    ensures
        r@ == join_seq(strings_view(parts@), sep@),
{
    format!("{}", parts.iter().format(sep))
}

/// Joining one more part onto a prefix of the parts.
proof fn lemma_join_step(parts: Seq<Seq<char>>, sep: Seq<char>, i: int)
    requires
        0 <= i < parts.len(),
    ensures
        join_seq(parts.take(i + 1), sep) == if i == 0 {
            parts[0]
        } else {
            join_seq(parts.take(i), sep) + sep + parts[i]
        },
{
    assert(parts.take(i + 1).drop_last() =~= parts.take(i));
}

/// Joins `parts` with `sep` between consecutive parts, as `[String]::join`
/// does, part by part.
pub(crate) fn join_with(parts: &Vec<String>, sep: &str) -> (r: String)
    ensures
        r@ == join_seq(strings_view(parts@), sep@),
{
    let ghost v = strings_view(parts@);
    let mut out = String::new();
    let n = parts.len();
    let mut i: usize = 0;
    while i < n
        invariant
            n == parts@.len(),
            v == strings_view(parts@),
            0 <= i <= n,
            out@ == join_seq(v.take(i as int), sep@),
        decreases n - i,
    {
        proof {
            lemma_join_step(v, sep@, i as int);
        }
        if i > 0 {
            out.append(sep);
        }
        out.append(parts[i].as_str());
        i = i + 1;
    }
    assert(v.take(n as int) =~= v);
    out
}

/// Appends `b` to `a`.
pub(crate) fn concat(a: String, b: &str) -> (r: String)
    ensures
        r@ == a@ + b@,
{
    let mut a = a;
    a.append(b);
    a
}

/// Copies `s` into an owned string.
pub(crate) fn text(s: &str) -> (r: String)
    ensures
        r@ == s@,
{
    String::from_str(s)
}

} // verus!
