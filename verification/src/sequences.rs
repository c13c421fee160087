//! Facts about picking elements out of a sequence.
use vstd::prelude::*;

verus! {

/// What is picked out of `s` is what `f` makes of its elements.
pub proof fn lemma_picked<A, B>(s: Seq<A>, f: spec_fn(A) -> Option<B>, b: B)
    ensures
        s.filter_map(f).contains(b) <==> exists|i: int| 0 <= i < s.len() && f(#[trigger] s[i]) == Some(b),
    decreases s.len(),
{
    if s.len() > 0 {
        let rest = s.drop_last();
        lemma_picked(rest, f, b);
        let all = s.filter_map(f);
        let some = rest.filter_map(f);
        if f(s.last()) is Some {
            assert(all =~= some.push(f(s.last())->0));
            assert(all[all.len() - 1] == f(s.last())->0);
            assert forall|x: B| all.contains(x) <==> some.contains(x) || f(s.last()) == Some(x) by {
                if some.contains(x) {
                    let i = choose|i: int| 0 <= i < some.len() && some[i] == x;
                    assert(all[i] == x);
                }
                if all.contains(x) {
                    let i = choose|i: int| 0 <= i < all.len() && all[i] == x;
                    if i < some.len() {
                        assert(some[i] == x);
                    }
                }
            }
        }
        if all.contains(b) {
            if f(s.last()) == Some(b) {
                assert(f(s[s.len() - 1]) == Some(b));
            } else {
                let i = choose|i: int| 0 <= i < rest.len() && f(#[trigger] rest[i]) == Some(b);
                assert(f(s[i]) == Some(b));
            }
        }
        if exists|i: int| 0 <= i < s.len() && f(#[trigger] s[i]) == Some(b) {
            let i = choose|i: int| 0 <= i < s.len() && f(#[trigger] s[i]) == Some(b);
            if i < rest.len() {
                assert(f(rest[i]) == Some(b));
            }
        }
    }
}

/// Nothing is picked twice out of a sequence without duplicates if `f` makes
/// different things of different elements.
pub proof fn lemma_picked_distinct<A, B>(s: Seq<A>, f: spec_fn(A) -> Option<B>)
    requires
        s.no_duplicates(),
        forall|x: A, y: A| #[trigger] f(x) is Some && #[trigger] f(y) == f(x) ==> x == y,
    ensures
        s.filter_map(f).no_duplicates(),
    decreases s.len(),
{
    if s.len() > 0 {
        let rest = s.drop_last();
        lemma_picked_distinct(rest, f);
        if f(s.last()) is Some {
            let b = f(s.last())->0;
            lemma_picked(rest, f, b);
            assert(s.filter_map(f) =~= rest.filter_map(f).push(b));
            if rest.filter_map(f).contains(b) {
                let i = choose|i: int| 0 <= i < rest.len() && f(#[trigger] rest[i]) == Some(b);
                assert(s[i] == rest[i]);
                assert(f(rest[i]) == f(s.last()));
            }
        }
    }
}

/// What is picked out of the first `i + 1` elements.
pub proof fn lemma_pick_next<A, B>(s: Seq<A>, f: spec_fn(A) -> Option<B>, i: int)
    requires
        0 <= i < s.len(),
    ensures
        s.take(i + 1).filter_map(f) == match f(s[i]) {
            Some(b) => s.take(i).filter_map(f).push(b),
            None => s.take(i).filter_map(f),
        },
{
    assert(s.take(i + 1).drop_last() =~= s.take(i));
    if f(s[i]) is Some {
        assert(s.take(i + 1).filter_map(f) =~= s.take(i).filter_map(f).push(f(s[i])->0));
    }
}

} // verus!
