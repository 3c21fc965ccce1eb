//! Strings: joining, the `from => to` form, and copies.
use vstd::prelude::*;
use vstd::string::StringExecFns;

verus! {

/// The parts in order, with `sep` between each two neighbours.
pub open spec fn join(parts: Seq<Seq<char>>, sep: Seq<char>) -> Seq<char>
    decreases parts.len(),
{
    if parts.len() == 0 {
        Seq::empty()
    } else if parts.len() == 1 {
        parts[0]
    } else {
        join(parts.drop_last(), sep) + sep + parts.last()
    }
}

/// The rule `from => to`, as the engine reads it.
pub open spec fn arrow(from: Seq<char>, to: Seq<char>) -> Seq<char> {
    from + " => "@ + to
}

/// `char::to_string` of std: the string that holds the one character `c`.
#[verifier::external_body]
pub(crate) fn char_to_string(c: char) -> (s: String)
    ensures
        s@ == seq![c],
{
    c.to_string()
}

/// Joins `parts` with `sep` between them.
pub fn join_strings(parts: &Vec<String>, sep: &str) -> (r: String)
    ensures
        r@ == join(parts.deep_view(), sep@),
{
    let mut out = String::new();
    let mut i: usize = 0;
    while i < parts.len()
        invariant
            i <= parts.len(),
            out@ == join(parts.deep_view().take(i as int), sep@),
        decreases parts.len() - i,
    {
        proof {
            let all = parts.deep_view();
            assert(all.take(i + 1).drop_last() =~= all.take(i as int));
            assert(all.take(i + 1).last() == parts[i as int]@);
            assert(all.take(1)[0] == all[0]);
        }
        if i > 0 {
            out.append(sep);
        }
        out.append(parts[i].as_str());
        i += 1;
    }
    assert(parts.deep_view().take(i as int) =~= parts.deep_view());
    out
}

/// Renders the rule `from => to`.
pub fn arrow_string(from: &str, to: &str) -> (r: String)
    ensures
        r@ == arrow(from@, to@),
{
    let mut out = from.to_owned();
    out.append(" => ");
    out.append(to);
    out
}

/// A copy of `items`.
pub fn clone_strings(items: &Vec<String>) -> (r: Vec<String>)
    ensures
        r.deep_view() == items.deep_view(),
{
    let mut out: Vec<String> = Vec::new();
    let mut i: usize = 0;
    while i < items.len()
        invariant
            i <= items.len(),
            out.len() == i,
            forall|k: int| 0 <= k < i ==> out[k]@ == items[k]@,
        decreases items.len() - i,
    {
        out.push(items[i].clone());
        i += 1;
    }
    assert(out.deep_view() =~= items.deep_view());
    out
}

} // verus!
