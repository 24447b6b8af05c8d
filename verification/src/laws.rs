//! The library-wide laws of the containment and ordering engine, stated and
//! proved once over the same spec functions the matcher contracts use.

use vstd::prelude::*;

use crate::describe::Describe;
use crate::iter::{
    divergence_from, first_free_match, greedy, greedy_from, seq_contains, seqs_equal,
};

verus! {

/// Law: the two polarities of the single-value containment check accept
/// complementary inputs — a check for one polarity passes on exactly the
/// inputs where the check for the other polarity fails — and membership means
/// the value equals some element under the element equality relation.
pub proof fn lemma_containment_polarity<T: Describe>(s: Seq<T>, v: T, should_contain: bool)
    ensures
        (seq_contains(s, v) == should_contain) <==> !(seq_contains(s, v) == !should_contain),
        seq_contains(s, v) <==> exists|i: int| 0 <= i < s.len() && v.eq_spec(&s[i]),
{
}

/// Law: the divergence index reported by the sequence comparator is the least
/// position where the two sequences disagree. Everything before it is
/// pointwise equal; at it, either a side has ended or the items differ; and it
/// points inside at least one sequence whenever the sequences are not equal.
pub proof fn lemma_divergence_is_first<T: Describe>(a: Seq<T>, e: Seq<T>)
    ensures
        ({
            let d = divergence_from(a, e, 0);
            &&& 0 <= d <= a.len()
            &&& d <= e.len()
            &&& forall|j: int| 0 <= j < d ==> a[j].eq_spec(&e[j])
            &&& (d < a.len() && d < e.len() ==> !a[d].eq_spec(&e[d]))
            &&& (seqs_equal(a, e) <==> d == a.len() && d == e.len())
        }),
{
    lemma_divergence_bounds(a, e, 0);
}

proof fn lemma_divergence_bounds<T: Describe>(a: Seq<T>, e: Seq<T>, i: int)
    requires
        0 <= i <= a.len(),
        i <= e.len(),
    ensures
        ({
            let d = divergence_from(a, e, i);
            &&& i <= d <= a.len()
            &&& d <= e.len()
            &&& forall|j: int| i <= j < d ==> a[j].eq_spec(&e[j])
            &&& (d < a.len() && d < e.len() ==> !a[d].eq_spec(&e[d]))
            &&& (d == a.len() && d == e.len()) || d < a.len() || d < e.len()
        }),
    decreases a.len() - i,
{
    if i >= a.len() || i >= e.len() {
    } else if !a[i].eq_spec(&e[i]) {
    } else {
        lemma_divergence_bounds(a, e, i + 1);
    }
}

/// An injective assignment of every expected value to a distinct subject
/// index, each assigned pair equal under the element relation.
pub open spec fn valid_assignment<T: Describe>(a: Seq<T>, es: Seq<T>, asg: Seq<int>) -> bool {
    &&& asg.len() == es.len()
    &&& forall|k: int| #![trigger asg[k]]
        0 <= k < asg.len() ==> 0 <= asg[k] < a.len() && es[k].eq_spec(&a[asg[k]])
    &&& forall|k: int, l: int| #![trigger asg[k], asg[l]] 0 <= k < l < asg.len() ==> asg[k] != asg[l]
}

/// An injective assignment of the expected values from position `k` on to
/// distinct subject indices outside the already-consumed set `used`.
pub open spec fn suffix_assignment<T: Describe>(
    a: Seq<T>,
    es: Seq<T>,
    k: int,
    used: Seq<int>,
    asg: Seq<int>,
) -> bool {
    &&& asg.len() == es.len() - k
    &&& forall|t: int| #![trigger asg[t]]
        0 <= t < asg.len() ==> 0 <= asg[t] < a.len() && !used.contains(asg[t]) && es[k + t].eq_spec(
            &a[asg[t]],
        )
    &&& forall|t: int, u: int| #![trigger asg[t], asg[u]] 0 <= t < u < asg.len() ==> asg[t] != asg[u]
}

proof fn lemma_push_contains(s: Seq<int>, v: int, x: int)
    ensures
        s.push(v).contains(x) <==> (s.contains(x) || x == v),
{
    if s.push(v).contains(x) {
        let i = choose|i: int| 0 <= i < s.push(v).len() && s.push(v)[i] == x;
        if i < s.len() {
            assert(s[i] == x);
        }
    }
    if s.contains(x) {
        let i = choose|i: int| 0 <= i < s.len() && s[i] == x;
        assert(s.push(v)[i] == x);
    }
    if x == v {
        assert(s.push(v)[s.len() as int] == x);
    }
}

proof fn lemma_ffm_some<T: Describe>(a: Seq<T>, used: Seq<int>, e: T, from: int, i: int)
    requires
        0 <= from,
        first_free_match(a, used, e, from) == Some(i),
    ensures
        from <= i < a.len(),
        !used.contains(i),
        e.eq_spec(&a[i]),
    decreases a.len() - from,
{
    if from >= a.len() {
    } else if !used.contains(from) && e.eq_spec(&a[from]) {
    } else {
        lemma_ffm_some(a, used, e, from + 1, i);
    }
}

proof fn lemma_ffm_none<T: Describe>(a: Seq<T>, used: Seq<int>, e: T, from: int)
    requires
        0 <= from,
        first_free_match(a, used, e, from) is None,
    ensures
        forall|i: int| from <= i < a.len() ==> used.contains(i) || !e.eq_spec(&a[i]),
    decreases a.len() - from,
{
    if from >= a.len() {
    } else {
        lemma_ffm_none(a, used, e, from + 1);
    }
}

proof fn lemma_greedy_from_completeness<T: Describe>(a: Seq<T>, es: Seq<T>, k: int, used: Seq<int>)
    requires
        forall|x: T, y: T| #[trigger] x.eq_spec(&y) == y.eq_spec(&x),
        forall|x: T, y: T, z: T|
            #[trigger] x.eq_spec(&y) && #[trigger] y.eq_spec(&z) ==> x.eq_spec(&z),
        0 <= k <= es.len(),
    ensures
        greedy_from(a, es, k, used).unmatched.len() == 0 <==> exists|asg: Seq<int>|
            suffix_assignment(a, es, k, used, asg),
    decreases es.len() - k,
{
    if k == es.len() {
        assert(suffix_assignment(a, es, k, used, Seq::<int>::empty()));
    } else {
        match first_free_match(a, used, es[k], 0) {
            Some(i) => {
                lemma_ffm_some(a, used, es[k], 0, i);
                lemma_greedy_from_completeness(a, es, k + 1, used.push(i));
                assert forall|x: int| used.push(i).contains(x) implies (used.contains(x) || x
                    == i) by {
                    lemma_push_contains(used, i, x);
                }
                assert forall|x: int| (used.contains(x) || x == i) implies used.push(i).contains(
                    x,
                ) by {
                    lemma_push_contains(used, i, x);
                }
                if greedy_from(a, es, k, used).unmatched.len() == 0 {
                    // The greedy run itself yields an assignment: index `i`
                    // for `es[k]`, then whatever the rest of the run found.
                    assert(greedy_from(a, es, k + 1, used.push(i)).unmatched.len() == 0);
                    let tail = choose|asg: Seq<int>| #[trigger]
                        suffix_assignment(a, es, k + 1, used.push(i), asg);
                    let asg = seq![i] + tail;
                    assert(suffix_assignment(a, es, k, used, asg)) by {
                        assert forall|t: int| 0 <= t < asg.len() implies 0 <= asg[t] < a.len()
                            && !used.contains(asg[t]) && es[k + t].eq_spec(&a[asg[t]]) by {
                            if t > 0 {
                                assert(asg[t] == tail[t - 1]);
                                assert(!used.push(i).contains(tail[t - 1]));
                            }
                        }
                        assert forall|t: int, u: int| 0 <= t < u < asg.len() implies asg[t]
                            != asg[u] by {
                            if t == 0 {
                                assert(!used.push(i).contains(tail[u - 1]));
                            }
                        }
                    }
                } else {
                    // The greedy run failed; no assignment can exist, or the
                    // exchange argument below would have let it succeed.
                    if exists|asg: Seq<int>| suffix_assignment(a, es, k, used, asg) {
                        let asg = choose|asg: Seq<int>| suffix_assignment(a, es, k, used, asg);
                        // Rearrange `asg` into one that leaves index `i` free
                        // for `es[k]`, so that the tail run must succeed.
                        let j = asg[0];
                        let tail0 = asg.drop_first();
                        assert(es[k].eq_spec(&a[j]));
                        let tail: Seq<int> = if exists|t0: int|
                            0 <= t0 < tail0.len() && tail0[t0] == i {
                            let t0 = choose|t0: int| 0 <= t0 < tail0.len() && tail0[t0] == i;
                            tail0.update(t0, j)
                        } else {
                            tail0
                        };
                        assert(suffix_assignment(a, es, k + 1, used.push(i), tail)) by {
                            if exists|t0: int| 0 <= t0 < tail0.len() && tail0[t0] == i {
                                let t0 = choose|t0: int| 0 <= t0 < tail0.len() && tail0[t0] == i;
                                assert(asg[t0 + 1] == i);
                                // The expected value at the exchanged slot
                                // equals a[i], a[i] equals es[k] (both match
                                // the greedy choice), and es[k] equals a[j].
                                assert(es[k + 1 + t0].eq_spec(&a[i]));
                                assert(a[i].eq_spec(&es[k]));
                                assert(es[k + 1 + t0].eq_spec(&es[k]));
                                assert(es[k + 1 + t0].eq_spec(&a[j]));
                                assert forall|t: int| 0 <= t < tail.len() implies 0 <= tail[t]
                                    < a.len() && !used.push(i).contains(tail[t]) && es[k + 1
                                    + t].eq_spec(&a[tail[t]]) by {
                                    if t == t0 {
                                        assert(tail[t] == j);
                                        assert(asg[0] != asg[t0 + 1]);
                                        assert(j != i);
                                    } else {
                                        assert(tail[t] == asg[t + 1]);
                                        assert(asg[t + 1] != asg[t0 + 1]);
                                        assert(tail[t] != i);
                                    }
                                }
                                assert forall|t: int, u: int| 0 <= t < u < tail.len() implies
                                    tail[t] != tail[u] by {
                                    if t == t0 {
                                        assert(tail[u] == asg[u + 1]);
                                        assert(asg[0] != asg[u + 1]);
                                    } else if u == t0 {
                                        assert(tail[t] == asg[t + 1]);
                                        assert(asg[0] != asg[t + 1]);
                                    } else {
                                        assert(tail[t] == asg[t + 1]);
                                        assert(tail[u] == asg[u + 1]);
                                    }
                                }
                            } else {
                                assert forall|t: int| 0 <= t < tail.len() implies 0 <= tail[t]
                                    < a.len() && !used.push(i).contains(tail[t]) && es[k + 1
                                    + t].eq_spec(&a[tail[t]]) by {
                                    assert(tail[t] == asg[t + 1]);
                                    assert(tail[t] != i);
                                }
                                assert forall|t: int, u: int| 0 <= t < u < tail.len() implies
                                    tail[t] != tail[u] by {
                                    assert(tail[t] == asg[t + 1]);
                                    assert(tail[u] == asg[u + 1]);
                                }
                            }
                        }
                        assert(greedy_from(a, es, k + 1, used.push(i)).unmatched.len() == 0);
                        assert(false);
                    }
                }
            },
            None => {
                lemma_ffm_none(a, used, es[k], 0);
                lemma_greedy_from_completeness(a, es, k + 1, used);
                assert(greedy_from(a, es, k, used).unmatched.len() > 0);
                if exists|asg: Seq<int>| suffix_assignment(a, es, k, used, asg) {
                    let asg = choose|asg: Seq<int>| suffix_assignment(a, es, k, used, asg);
                    assert(0 <= asg[0] < a.len() && !used.contains(asg[0]) && es[k].eq_spec(
                        &a[asg[0]],
                    ));
                    assert(false);
                }
            },
        }
    }
}

/// Law: the greedy, leftmost-available assignment finds a complete match
/// exactly when some injective assignment of the expected values to distinct
/// subject indices exists — provided the element equality relation is
/// symmetric and transitive. (Without those two properties the greedy run can
/// miss an assignment that a different order of choices would have found.)
pub proof fn lemma_greedy_completeness<T: Describe>(a: Seq<T>, es: Seq<T>)
    requires
        forall|x: T, y: T| #[trigger] x.eq_spec(&y) == y.eq_spec(&x),
        forall|x: T, y: T, z: T|
            #[trigger] x.eq_spec(&y) && #[trigger] y.eq_spec(&z) ==> x.eq_spec(&z),
    ensures
        greedy(a, es).unmatched.len() == 0 <==> exists|asg: Seq<int>| valid_assignment(a, es, asg),
{
    lemma_greedy_from_completeness(a, es, 0, Seq::<int>::empty());
    if exists|asg: Seq<int>| suffix_assignment(a, es, 0, Seq::<int>::empty(), asg) {
        let asg = choose|asg: Seq<int>| suffix_assignment(a, es, 0, Seq::<int>::empty(), asg);
        assert(valid_assignment(a, es, asg));
    }
    if exists|asg: Seq<int>| valid_assignment(a, es, asg) {
        let asg = choose|asg: Seq<int>| valid_assignment(a, es, asg);
        assert(suffix_assignment(a, es, 0, Seq::<int>::empty(), asg)) by {
            assert forall|t: int| 0 <= t < asg.len() implies 0 <= asg[t] < a.len()
                && !Seq::<int>::empty().contains(asg[t]) && es[0 + t].eq_spec(&a[asg[t]]) by {
                assert(0 <= asg[t] < a.len() && es[t].eq_spec(&a[asg[t]]));
            }
        }
    }
}


proof fn lemma_greedy_from_ordering<T: Describe>(a: Seq<T>, es: Seq<T>, k: int, used: Seq<int>)
    requires
        0 <= k <= es.len(),
    ensures
        ({
            let g = greedy_from(a, es, k, used);
            &&& g.matched.len() + g.unmatched.len() == es.len() - k
            &&& forall|t: int| 0 <= t < g.matched.len() ==> k <= #[trigger] g.matched[t] < es.len()
            &&& forall|t: int| 0 <= t < g.unmatched.len() ==> k <= #[trigger] g.unmatched[t]
                < es.len()
            &&& forall|t: int, u: int|
                0 <= t < u < g.matched.len() ==> #[trigger] g.matched[t] < #[trigger] g.matched[u]
            &&& forall|t: int, u: int|
                0 <= t < u < g.unmatched.len() ==> #[trigger] g.unmatched[t]
                    < #[trigger] g.unmatched[u]
            &&& forall|j: int|
                k <= j < es.len() ==> (g.matched.contains(j) <==> !g.unmatched.contains(j))
        }),
    decreases es.len() - k,
{
    if k == es.len() {
    } else {
        let g = greedy_from(a, es, k, used);
        match first_free_match(a, used, es[k], 0) {
            Some(i) => {
                lemma_greedy_from_ordering(a, es, k + 1, used.push(i));
                let rest = greedy_from(a, es, k + 1, used.push(i));
                assert forall|j: int| k <= j < es.len() implies (g.matched.contains(j)
                    <==> !g.unmatched.contains(j)) by {
                    assert(g.matched[0] == k);
                    if j == k {
                        assert(g.matched.contains(k));
                        if g.unmatched.contains(k) {
                            let t = choose|t: int|
                                0 <= t < g.unmatched.len() && g.unmatched[t] == k;
                            assert(rest.unmatched[t] == k);
                        }
                    } else {
                        if g.matched.contains(j) {
                            let t = choose|t: int| 0 <= t < g.matched.len() && g.matched[t] == j;
                            assert(rest.matched[t - 1] == j);
                            assert(rest.matched.contains(j));
                        }
                        if rest.matched.contains(j) {
                            let t = choose|t: int|
                                0 <= t < rest.matched.len() && rest.matched[t] == j;
                            assert(g.matched[t + 1] == j);
                            assert(g.matched.contains(j));
                        }
                        assert(g.unmatched =~= rest.unmatched);
                    }
                }
            },
            None => {
                lemma_greedy_from_ordering(a, es, k + 1, used);
                let rest = greedy_from(a, es, k + 1, used);
                assert forall|j: int| k <= j < es.len() implies (g.matched.contains(j)
                    <==> !g.unmatched.contains(j)) by {
                    assert(g.unmatched[0] == k);
                    if j == k {
                        assert(g.unmatched.contains(k));
                        if g.matched.contains(k) {
                            let t = choose|t: int| 0 <= t < g.matched.len() && g.matched[t] == k;
                            assert(rest.matched[t] == k);
                        }
                    } else {
                        if g.unmatched.contains(j) {
                            let t = choose|t: int|
                                0 <= t < g.unmatched.len() && g.unmatched[t] == j;
                            assert(rest.unmatched[t - 1] == j);
                            assert(rest.unmatched.contains(j));
                        }
                        if rest.unmatched.contains(j) {
                            let t = choose|t: int|
                                0 <= t < rest.unmatched.len() && rest.unmatched[t] == j;
                            assert(g.unmatched[t + 1] == j);
                            assert(g.unmatched.contains(j));
                        }
                        assert(g.matched =~= rest.matched);
                    }
                }
            },
        }
    }
}

/// Law: the failure ordering of the multi-value matcher is exactly
/// matched-then-unmatched. The greedy run splits the expected positions into
/// two disjoint lists that together cover the whole expected list, and each
/// list keeps the expected values in their original relative order — so the
/// reported list is the matched values in match order (which is their
/// expected order) followed by the unmatched values in their expected order.
pub proof fn lemma_greedy_reported_order<T: Describe>(a: Seq<T>, es: Seq<T>)
    ensures
        ({
            let g = greedy(a, es);
            &&& g.matched.len() + g.unmatched.len() == es.len()
            &&& forall|t: int| 0 <= t < g.matched.len() ==> 0 <= #[trigger] g.matched[t]
                < es.len()
            &&& forall|t: int| 0 <= t < g.unmatched.len() ==> 0 <= #[trigger] g.unmatched[t]
                < es.len()
            &&& forall|t: int, u: int|
                0 <= t < u < g.matched.len() ==> #[trigger] g.matched[t] < #[trigger] g.matched[u]
            &&& forall|t: int, u: int|
                0 <= t < u < g.unmatched.len() ==> #[trigger] g.unmatched[t]
                    < #[trigger] g.unmatched[u]
            &&& forall|j: int|
                0 <= j < es.len() ==> (g.matched.contains(j) <==> !g.unmatched.contains(j))
        }),
{
    lemma_greedy_from_ordering(a, es, 0, Seq::<int>::empty());
}


proof fn lemma_greedy_from_pairing<T: Describe>(a: Seq<T>, es: Seq<T>, k: int, used: Seq<int>)
    requires
        0 <= k <= es.len(),
        used.no_duplicates(),
    ensures
        ({
            let g = greedy_from(a, es, k, used);
            &&& g.used.len() == used.len() + g.matched.len()
            &&& g.used.subrange(0, used.len() as int) == used
            &&& g.used.no_duplicates()
            &&& forall|t: int|
                0 <= t < g.matched.len() ==> 0 <= #[trigger] g.used[used.len() + t] < a.len()
                    && es[g.matched[t]].eq_spec(&a[g.used[used.len() + t]])
        }),
    decreases es.len() - k,
{
    let g = greedy_from(a, es, k, used);
    if k == es.len() {
        assert(g.used.subrange(0, used.len() as int) =~= used);
    } else {
        match first_free_match(a, used, es[k], 0) {
            Some(i) => {
                lemma_ffm_some(a, used, es[k], 0, i);
                assert(used.push(i).no_duplicates()) by {
                    assert forall|p: int, q: int|
                        0 <= p < used.push(i).len() && 0 <= q < used.push(i).len() && p
                            != q implies used.push(i)[p] != used.push(i)[q] by {
                        if q == used.len() && p < used.len() {
                            assert(used.contains(used[p]));
                        } else if p == used.len() && q < used.len() {
                            assert(used.contains(used[q]));
                        }
                    }
                }
                lemma_greedy_from_pairing(a, es, k + 1, used.push(i));
                let rest = greedy_from(a, es, k + 1, used.push(i));
                assert(g.used.subrange(0, used.len() as int) =~= used) by {
                    assert(rest.used.subrange(0, used.len() as int + 1) =~= used.push(i));
                    assert forall|j: int| 0 <= j < used.len() implies g.used[j] == used[j] by {
                        assert(rest.used.subrange(0, used.len() as int + 1)[j] == rest.used[j]);
                    }
                }
                assert forall|t: int| 0 <= t < g.matched.len() implies 0 <= #[trigger] g.used[used.len()
                    + t] < a.len() && es[g.matched[t]].eq_spec(&a[g.used[used.len() + t]]) by {
                    if t == 0 {
                        assert(g.matched[0] == k);
                        assert(rest.used.subrange(0, used.len() as int + 1)[used.len() as int]
                            == rest.used[used.len() as int]);
                        assert(g.used[used.len() as int] == i);
                    } else {
                        assert(g.matched[t] == rest.matched[t - 1]);
                        assert(g.used[used.len() + t] == rest.used[used.push(i).len() + (t - 1)]);
                    }
                }
            },
            None => {
                lemma_greedy_from_pairing(a, es, k + 1, used);
            },
        }
    }
}

/// Law: the greedy assignment is one-to-one. Every consumed subject index is
/// consumed by exactly one expected value: the run claims one distinct,
/// in-range index per matched expected value, and each claimed index holds an
/// element the expected value equals.
pub proof fn lemma_greedy_one_to_one<T: Describe>(a: Seq<T>, es: Seq<T>)
    ensures
        ({
            let g = greedy(a, es);
            &&& g.used.len() == g.matched.len()
            &&& g.used.no_duplicates()
            &&& forall|t: int|
                0 <= t < g.matched.len() ==> 0 <= #[trigger] g.used[t] < a.len()
                    && es[g.matched[t]].eq_spec(&a[g.used[t]])
        }),
{
    lemma_greedy_from_pairing(a, es, 0, Seq::<int>::empty());
    let g = greedy(a, es);
    assert forall|t: int| 0 <= t < g.matched.len() implies 0 <= #[trigger] g.used[t] < a.len()
        && es[g.matched[t]].eq_spec(&a[g.used[t]]) by {
        assert(g.used[Seq::<int>::empty().len() + t] == g.used[t]);
    }
}

} // verus!
