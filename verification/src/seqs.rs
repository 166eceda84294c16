//! Sequence functions that describe the list of open connections: how often
//! an item occurs, the items without repeats, and dropping one occurrence.

use vstd::prelude::*;

verus! {

/// How many times `x` occurs in `s`.
pub open spec fn occurrences<A>(s: Seq<A>, x: A) -> nat
    decreases s.len(),
{
    if s.len() == 0 {
        0
    } else {
        occurrences(s.drop_last(), x) + if s.last() == x {
            1nat
        } else {
            0nat
        }
    }
}

/// The items of `s`, each once, in the order of their first occurrence.
pub open spec fn distinct<A>(s: Seq<A>) -> Seq<A>
    decreases s.len(),
{
    if s.len() == 0 {
        s
    } else {
        let d = distinct(s.drop_last());
        if d.contains(s.last()) {
            d
        } else {
            d.push(s.last())
        }
    }
}

/// `s` without its last occurrence of `x` (unchanged when `x` is absent).
pub open spec fn without_last<A>(s: Seq<A>, x: A) -> Seq<A>
    decreases s.len(),
{
    if s.len() == 0 {
        s
    } else if s.last() == x {
        s.drop_last()
    } else {
        without_last(s.drop_last(), x).push(s.last())
    }
}

/// An item of `s` pushed on: contained exactly when it was, or is the new one.
pub proof fn lemma_push_contains<A>(s: Seq<A>, y: A, x: A)
    ensures
        s.push(y).contains(x) <==> (s.contains(x) || x == y),
{
    if s.contains(x) {
        let i = choose|i: int| 0 <= i < s.len() && s[i] == x;
        assert(s.push(y)[i] == x);
    }
    if x == y {
        assert(s.push(y)[s.len() as int] == x);
    }
    if s.push(y).contains(x) {
        let i = choose|i: int| 0 <= i < s.push(y).len() && s.push(y)[i] == x;
        if i < s.len() {
            assert(s[i] == x);
        }
    }
}

/// `s` is its prefix without the last item, with that item pushed back.
pub proof fn lemma_drop_last_contains<A>(s: Seq<A>, x: A)
    requires
        s.len() > 0,
    ensures
        s.contains(x) <==> (s.drop_last().contains(x) || s.last() == x),
{
    assert(s.drop_last().push(s.last()) =~= s);
    lemma_push_contains(s.drop_last(), s.last(), x);
}

/// `x` occurs in `s` exactly when `s` contains it.
pub proof fn lemma_occurrences_contains<A>(s: Seq<A>, x: A)
    ensures
        occurrences(s, x) > 0 <==> s.contains(x),
        occurrences(s, x) <= s.len(),
    decreases s.len(),
{
    if s.len() > 0 {
        lemma_occurrences_contains(s.drop_last(), x);
        lemma_drop_last_contains(s, x);
    }
}

/// Occurrences after a push.
pub proof fn lemma_occurrences_push<A>(s: Seq<A>, y: A, x: A)
    ensures
        occurrences(s.push(y), x) == occurrences(s, x) + if x == y {
            1nat
        } else {
            0nat
        },
{
    assert(s.push(y).drop_last() =~= s);
}

/// Occurrences of two sequences one after the other add up.
pub proof fn lemma_occurrences_concat<A>(s: Seq<A>, t: Seq<A>, x: A)
    ensures
        occurrences(s + t, x) == occurrences(s, x) + occurrences(t, x),
    decreases t.len(),
{
    if t.len() > 0 {
        assert((s + t).drop_last() =~= s + t.drop_last());
        lemma_occurrences_concat(s, t.drop_last(), x);
    }
}

/// `distinct(s)` holds the items of `s`, each once, and is no longer.
pub proof fn lemma_distinct<A>(s: Seq<A>)
    ensures
        distinct(s).no_duplicates(),
        distinct(s).len() <= s.len(),
        forall|x: A| #[trigger] distinct(s).contains(x) <==> s.contains(x),
    decreases s.len(),
{
    if s.len() > 0 {
        let rest = s.drop_last();
        let d = distinct(rest);
        lemma_distinct(rest);
        assert forall|x: A| #[trigger] distinct(s).contains(x) <==> s.contains(x) by {
            lemma_drop_last_contains(s, x);
            lemma_push_contains(d, s.last(), x);
        }
        if !d.contains(s.last()) {
            let e = d.push(s.last());
            assert forall|i: int, j: int| 0 <= i < e.len() && 0 <= j < e.len() && i != j
                implies e[i] != e[j] by {
                if i < d.len() && j < d.len() {
                } else if i < d.len() {
                    assert(d.contains(d[i]));
                } else {
                    assert(d.contains(d[j]));
                }
            }
        }
    }
}

/// Dropping the last occurrence of `x` removes one occurrence of `x` when
/// there is one, and changes nothing otherwise.
pub proof fn lemma_without_last<A>(s: Seq<A>, x: A)
    ensures
        s.contains(x) ==> without_last(s, x).len() == s.len() - 1,
        !s.contains(x) ==> without_last(s, x) == s,
        forall|y: A|
            #[trigger] occurrences(without_last(s, x), y) == if y == x && s.contains(x) {
                occurrences(s, y) - 1
            } else {
                occurrences(s, y) as int
            },
    decreases s.len(),
{
    if s.len() > 0 {
        let rest = s.drop_last();
        lemma_drop_last_contains(s, x);
        if s.last() == x {
            assert forall|y: A|
                #[trigger] occurrences(without_last(s, x), y) == if y == x && s.contains(x) {
                    occurrences(s, y) - 1
                } else {
                    occurrences(s, y) as int
                } by {
            }
        } else {
            lemma_without_last(rest, x);
            assert forall|y: A|
                #[trigger] occurrences(without_last(s, x), y) == if y == x && s.contains(x) {
                    occurrences(s, y) - 1
                } else {
                    occurrences(s, y) as int
                } by {
                lemma_occurrences_push(without_last(rest, x), s.last(), y);
            }
            if !s.contains(x) {
                assert(rest.push(s.last()) =~= s);
            }
        }
    }
}

/// Dropping the last occurrence of `x` is removing the item at its index.
pub proof fn lemma_without_last_at<A>(s: Seq<A>, x: A, i: int)
    requires
        0 <= i < s.len(),
        s[i] == x,
        forall|j: int| i < j < s.len() ==> s[j] != x,
    ensures
        without_last(s, x) == s.remove(i),
    decreases s.len(),
{
    if i == s.len() - 1 {
        assert(s.drop_last() =~= s.remove(i));
    } else {
        let rest = s.drop_last();
        lemma_without_last_at(rest, x, i);
        assert(rest.remove(i).push(s.last()) =~= s.remove(i));
    }
}

} // verus!
