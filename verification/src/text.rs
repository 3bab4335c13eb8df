//! Joining strings with a separator.

use vstd::prelude::*;

verus! {

/// The separator placed between the parts of a multi-valued entry: `", "`.
pub open spec fn comma_space() -> Seq<char> {
    seq![',', ' ']
}

/// The concatenation of `parts`, with `sep` between each two neighbours.
pub open spec fn join_seq(parts: Seq<Seq<char>>, sep: Seq<char>) -> Seq<char>
    decreases parts.len(),
{
    if parts.len() == 0 {
        Seq::empty()
    } else if parts.len() == 1 {
        parts[0]
    } else {
        join_seq(parts.drop_last(), sep) + sep + parts.last()
    }
}

/// The joins of no part and of one part: nothing, and that part.
pub proof fn lemma_join_empty_and_single(p: Seq<char>, sep: Seq<char>)
    ensures
        join_seq(Seq::<Seq<char>>::empty(), sep) == Seq::<char>::empty(),
        join_seq(seq![p], sep) == p,
{
}

/// Joining one more part after at least one appends the separator and then
/// that part: every part, however many there are, ends up in the join.
pub proof fn lemma_join_push(parts: Seq<Seq<char>>, p: Seq<char>, sep: Seq<char>)
    requires
        parts.len() > 0,
    ensures
        join_seq(parts.push(p), sep) == join_seq(parts, sep) + sep + p,
{
    assert(parts.push(p).drop_last() =~= parts);
}

/// The sum of the lengths of `parts`.
pub open spec fn total_len(parts: Seq<Seq<char>>) -> nat
    decreases parts.len(),
{
    if parts.len() == 0 {
        0
    } else {
        total_len(parts.drop_last()) + parts.last().len()
    }
}

/// The join of `n > 0` parts is as long as the parts together, plus `n - 1`
/// separators.
pub proof fn lemma_join_len(parts: Seq<Seq<char>>, sep: Seq<char>)
    requires
        parts.len() > 0,
    ensures
        join_seq(parts, sep).len() == total_len(parts) + sep.len() * (parts.len() - 1),
    decreases parts.len(),
{
    assert(total_len(parts) == total_len(parts.drop_last()) + parts.last().len());
    if parts.len() == 1 {
        assert(total_len(parts.drop_last()) == 0);
        assert(parts.last() == parts[0]);
    } else {
        lemma_join_len(parts.drop_last(), sep);
        assert(sep.len() * (parts.len() - 1) == sep.len() * (parts.len() - 2) + sep.len())
            by (nonlinear_arith)
            requires parts.len() > 1;
    }
}

/// The character sequences of a sequence of strings.
pub open spec fn string_views(v: Seq<String>) -> Seq<Seq<char>> {
    v.map_values(|s: String| s@)
}

/// Joins `parts` with `", "` between each two neighbours.
pub fn join_comma_space(parts: &Vec<String>) -> (joined: String)
    ensures
        joined@ == join_seq(string_views(parts@), comma_space()),
{
    let ghost views = string_views(parts@);
    let mut joined = String::new();
    let n = parts.len();
    let mut i: usize = 0;
    while i < n
        invariant
            n == parts@.len(),
            i <= n,
            views == string_views(parts@),
            joined@ == join_seq(views.take(i as int), comma_space()),
        decreases n - i,
    {
        proof {
            reveal_strlit(", ");
            assert(views.take(i + 1).drop_last() =~= views.take(i as int));
        }
        if i != 0 {
            joined.append(", ");
        }
        joined.append(parts[i].as_str());
        i = i + 1;
    }
    assert(views.take(n as int) =~= views);
    joined
}

} // verus!
