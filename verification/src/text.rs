//! Small verified helpers over strings: equality of string slices and
//! comma-joining of issue texts.

use vstd::prelude::*;

verus! {

/// Equality of two string slices, with its meaning over their views.
pub fn str_eq(a: &str, b: &str) -> (r: bool)
    ensures
        r == (a@ == b@),
{
    let sa = a.to_owned();
    let sb = b.to_owned();
    sa == sb
}

/// What joining a sequence of texts with ", " means.
pub open spec fn spec_join_comma(parts: Seq<Seq<char>>) -> Seq<char>
    decreases parts.len(),
{
    if parts.len() == 0 {
        Seq::empty()
    } else if parts.len() == 1 {
        parts[0]
    } else {
        spec_join_comma(parts.drop_last()) + ", "@ + parts.last()
    }
}

/// Joins the given texts with ", ", as issue messages are joined into one
/// error message.
pub fn join_comma(parts: &Vec<String>) -> (r: String)
    ensures
        r@ == spec_join_comma(parts.deep_view()),
{
    let mut acc = String::new();
    let mut i: usize = 0;
    while i < parts.len()
        invariant
            i <= parts.len(),
            acc@ == spec_join_comma(parts.deep_view().take(i as int)),
        decreases parts.len() - i,
    {
        if i > 0 {
            acc.append(", ");
        }
        acc.append(parts[i].as_str());
        proof {
            let full = parts.deep_view();
            assert(full.take(i + 1).drop_last() =~= full.take(i as int));
            assert(full.take(i + 1).last() == full[i as int]);
        }
        i = i + 1;
    }
    proof {
        assert(parts.deep_view().take(parts.len() as int) =~= parts.deep_view());
    }
    acc
}

} // verus!
