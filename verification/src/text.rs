//! Small text-assembly helpers: joining a list of text pieces with a
//! separator, pinned piece by piece by its specification.

use vstd::prelude::*;

verus! {

/// The parts in order, with `sep` between each pair of consecutive parts.
pub open spec fn spec_join(parts: Seq<Seq<char>>, sep: Seq<char>) -> Seq<char>
    decreases parts.len(),
{
    if parts.len() == 0 {
        Seq::empty()
    } else if parts.len() == 1 {
        parts[0]
    } else {
        spec_join(parts.drop_last(), sep) + sep + parts.last()
    }
}

/// Joins the parts in order, with `sep` between each pair of consecutive
/// parts.
pub fn join_with(parts: &Vec<String>, sep: &str) -> (r: String)
    ensures
        r@ == spec_join(parts.deep_view(), sep@),
{
    let ghost s = parts.deep_view();
    let mut r = String::new();
    let mut i: usize = 0;
    while i < parts.len()
        invariant
            i <= parts.len(),
            s == parts.deep_view(),
            s.len() == parts.len(),
            r@ == spec_join(s.take(i as int), sep@),
        decreases parts.len() - i,
    {
        if i > 0 {
            r.append(sep);
        }
        r.append(parts[i].as_str());
        i = i + 1;
        proof {
            let j = i as int;
            assert(s.take(j).last() == s[j - 1]);
            if j == 1 {
                assert(r@ =~= spec_join(s.take(1), sep@));
            } else {
                assert(s.take(j).drop_last() =~= s.take(j - 1));
                assert(r@ =~= spec_join(s.take(j), sep@));
            }
        }
    }
    proof {
        assert(s.take(parts.len() as int) =~= s);
    }
    r
}

} // verus!
