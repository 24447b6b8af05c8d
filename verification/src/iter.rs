//! The iterable containment and ordering engine: single-value membership,
//! greedy multi-value assignment, order-sensitive sequence comparison, and
//! predicate / mapping searches, each with the exact diagnostic it produces on
//! a mismatch.

use vstd::prelude::*;
use vstd::string::StringExecFns;

use crate::describe::{
    angled, list_rendering, list_rendering_upto, push_list, push_list_upto, push_selected_list,
    select, Describe,
};
use crate::failure::{single_format, two_part_format, AssertionFailure};
use crate::subject::Subject;

verus! {

/// Membership of a value in a sequence: the value equals some element, under
/// the element equality relation, with the value on the left as the matchers
/// compare it.
pub open spec fn seq_contains<T: Describe>(s: Seq<T>, v: T) -> bool {
    exists|i: int| 0 <= i < s.len() && v.eq_spec(&s[i])
}

/// The expected-side text of a single-value containment failure.
pub open spec fn containment_text(rendering: Seq<char>, should_contain: bool) -> Seq<char> {
    (if should_contain {
        "iterator to contain <"@
    } else {
        "iterator to not contain <"@
    }) + rendering + ">"@
}

/// Builds the failure a containment mismatch reports: the expected side
/// names the value and the polarity, the actual side shows every scanned
/// element.
pub fn panic_unmatched<T: Describe>(actual: &Vec<T>, expected: &T, should_contain: bool) -> (f:
    AssertionFailure)
    ensures
        f.rendered() == two_part_format(
            containment_text(expected.rendering(), should_contain),
            angled(list_rendering(actual@)),
        ),
{
    let mut e = if should_contain {
        proof {
            reveal_strlit("iterator to contain <");
        }
        String::from_str("iterator to contain <")
    } else {
        proof {
            reveal_strlit("iterator to not contain <");
        }
        String::from_str("iterator to not contain <")
    };
    let piece = expected.render();
    e.append(piece.as_str());
    e.push('>');
    proof {
        reveal_strlit(">");
        assert(e@ =~= containment_text(expected.rendering(), should_contain));
    }
    let mut a = String::new();
    a.push('<');
    push_list(&mut a, actual);
    a.push('>');
    assert(a@ =~= angled(list_rendering(actual@)));
    AssertionFailure::new().with_expected(e).with_actual(a)
}

/// Scans every element of `actual`, records whether any equals `expected`, and
/// passes exactly when that presence matches the requested polarity.
pub fn check_iterator_contains<T: Describe>(actual: &Vec<T>, expected: &T, should_contain: bool) -> (r:
    Result<(), AssertionFailure>)
    ensures
        r.is_ok() <==> (seq_contains(actual@, *expected) == should_contain),
        r matches Err(f) ==> f.rendered() == two_part_format(
            containment_text(expected.rendering(), should_contain),
            angled(list_rendering(actual@)),
        ),
{
    let mut contains_value = false;
    let mut i: usize = 0;
    while i < actual.len()
        invariant
            0 <= i <= actual@.len(),
            contains_value == (exists|j: int|
                0 <= j < i && expected.eq_spec(&actual@[j])),
        decreases actual@.len() - i,
    {
        if expected.eq_item(&actual[i]) {
            contains_value = true;
        }
        i += 1;
    }
    if contains_value == should_contain {
        Ok(())
    } else {
        Err(panic_unmatched(actual, expected, should_contain))
    }
}

/// The index where two sequences first diverge, scanning from `i`: the first
/// position where one side ends or the items differ; their shared length when
/// they agree throughout.
pub open spec fn divergence_from<T: Describe>(a: Seq<T>, e: Seq<T>, i: int) -> int
    decreases a.len() - i,
{
    if i < 0 || i >= a.len() || i >= e.len() {
        i
    } else if !a[i].eq_spec(&e[i]) {
        i
    } else {
        divergence_from(a, e, i + 1)
    }
}

/// Strict, order-sensitive sequence equality under the element relation.
pub open spec fn seqs_equal<T: Describe>(a: Seq<T>, e: Seq<T>) -> bool {
    a.len() == e.len() && forall|i: int| 0 <= i < a.len() ==> a[i].eq_spec(&e[i])
}

/// The text for a side that yielded one more item, with the prefix read so far.
pub open spec fn item_text<T: Describe>(s: Seq<T>, d: int) -> Seq<char> {
    "Iterator item of <"@ + s[d].rendering() + "> (read <"@ + list_rendering_upto(s, d) + ">)"@
}

/// The text for a side that ended, with the prefix read so far.
pub open spec fn completed_text<T: Describe>(s: Seq<T>, d: int) -> Seq<char> {
    "Completed iterator (read <"@ + list_rendering_upto(s, d) + ">)"@
}

fn push_item_text<T: Describe>(out: &mut String, items: &Vec<T>, d: usize)
    requires
        d < items@.len(),
    ensures
        final(out)@ == old(out)@ + item_text(items@, d as int),
{
    proof {
        reveal_strlit("Iterator item of <");
        reveal_strlit("> (read <");
        reveal_strlit(">)");
    }
    out.append("Iterator item of <");
    let piece = items[d].render();
    out.append(piece.as_str());
    out.append("> (read <");
    push_list_upto(out, items, d);
    out.append(">)");
    assert(out@ =~= old(out)@ + item_text(items@, d as int));
}

fn push_completed_text<T: Describe>(out: &mut String, items: &Vec<T>, d: usize)
    requires
        d <= items@.len(),
    ensures
        final(out)@ == old(out)@ + completed_text(items@, d as int),
{
    proof {
        reveal_strlit("Completed iterator (read <");
        reveal_strlit(">)");
    }
    out.append("Completed iterator (read <");
    push_list_upto(out, items, d);
    out.append(">)");
    assert(out@ =~= old(out)@ + completed_text(items@, d as int));
}

/// Compares two sequences in lock step and passes exactly when they have equal
/// length and equal items throughout; on the first divergence it reports the
/// mismatching items, or the side that ended early, together with the prefix
/// each side had yielded.
pub fn compare_iterators<T: Describe>(actual: &Vec<T>, expected: &Vec<T>) -> (r: Result<
    (),
    AssertionFailure,
>)
    ensures
        r.is_ok() <==> seqs_equal(actual@, expected@),
        r matches Err(f) ==> {
            let d = divergence_from(actual@, expected@, 0);
            f.rendered() == two_part_format(
                if d < expected@.len() {
                    item_text(expected@, d)
                } else {
                    completed_text(expected@, d)
                },
                if d < actual@.len() {
                    item_text(actual@, d)
                } else {
                    completed_text(actual@, d)
                },
            )
        },
{
    let a_len = actual.len();
    let e_len = expected.len();
    let mut i: usize = 0;
    while i < a_len && i < e_len && actual[i].eq_item(&expected[i])
        invariant
            0 <= i <= actual@.len(),
            0 <= i <= expected@.len(),
            a_len == actual@.len(),
            e_len == expected@.len(),
            forall|j: int| 0 <= j < i ==> actual@[j].eq_spec(&expected@[j]),
            divergence_from(actual@, expected@, 0) == divergence_from(actual@, expected@, i as int),
        decreases actual@.len() - i,
    {
        proof {
            lemma_divergence_step(actual@, expected@, i as int);
        }
        i += 1;
    }
    let ghost d = divergence_from(actual@, expected@, 0);
    if i == a_len && i == e_len {
        assert(seqs_equal(actual@, expected@));
        return Ok(());
    }
    assert(d == i as int);
    assert(!seqs_equal(actual@, expected@)) by {
        if actual@.len() == expected@.len() && i < actual@.len() {
            assert(!actual@[i as int].eq_spec(&expected@[i as int]));
        }
    }
    let mut e = String::new();
    if i < e_len {
        push_item_text(&mut e, expected, i);
    } else {
        push_completed_text(&mut e, expected, i);
    }
    let mut a = String::new();
    if i < a_len {
        push_item_text(&mut a, actual, i);
    } else {
        push_completed_text(&mut a, actual, i);
    }
    Err(AssertionFailure::new().with_expected(e).with_actual(a))
}

proof fn lemma_divergence_step<T: Describe>(a: Seq<T>, e: Seq<T>, i: int)
    requires
        0 <= i < a.len(),
        0 <= i < e.len(),
        a[i].eq_spec(&e[i]),
    ensures
        divergence_from(a, e, i) == divergence_from(a, e, i + 1),
{
}

/// The single-message text of a failed predicate search over the whole subject.
pub open spec fn predicate_failure_text<T: Describe>(s: Seq<T>) -> Seq<char> {
    "expectation failed for iterator with values <"@ + list_rendering(s) + ">"@
}

/// Searches the elements in order and passes at the first one the predicate
/// accepts, without visiting anything after it; fails only after the predicate
/// has rejected every element, showing them all.
pub fn matching_contains_in<T: Describe, F: Fn(&T) -> bool>(actual: &Vec<T>, matcher: F) -> (r:
    Result<(), AssertionFailure>)
    requires
        forall|i: int| #![trigger actual@[i]] 0 <= i < actual@.len() ==> call_requires(
            matcher,
            (&actual@[i],),
        ),
    ensures
        r.is_ok() ==> exists|i: int|
            0 <= i < actual@.len() && call_ensures(matcher, (&actual@[i],), true) && (forall|j: int|
                0 <= j < i ==> call_ensures(matcher, (&actual@[j],), false)),
        r matches Err(f) ==> (forall|j: int|
            0 <= j < actual@.len() ==> call_ensures(matcher, (&actual@[j],), false))
            && f.rendered() == single_format(predicate_failure_text(actual@)),
{
    let mut i: usize = 0;
    while i < actual.len()
        invariant
            0 <= i <= actual@.len(),
            forall|k: int| #![trigger actual@[k]] 0 <= k < actual@.len() ==> call_requires(
                matcher,
                (&actual@[k],),
            ),
            forall|j: int| 0 <= j < i ==> call_ensures(matcher, (&actual@[j],), false),
        decreases actual@.len() - i,
    {
        if matcher(&actual[i]) {
            return Ok(());
        }
        i += 1;
    }
    proof {
        reveal_strlit("expectation failed for iterator with values <");
        reveal_strlit(">");
    }
    let mut m = String::from_str("expectation failed for iterator with values <");
    push_list(&mut m, actual);
    m.push('>');
    assert(m@ =~= predicate_failure_text(actual@));
    Err(AssertionFailure::from_message(m))
}

/// The leftmost index of `a` at or after `from` that is not yet consumed and
/// whose item the expected value equals; `None` when no such index exists.
pub open spec fn first_free_match<T: Describe>(a: Seq<T>, used: Seq<int>, e: T, from: int) -> Option<
    int,
>
    decreases a.len() - from,
{
    if from < 0 || from >= a.len() {
        None
    } else if !used.contains(from) && e.eq_spec(&a[from]) {
        Some(from)
    } else {
        first_free_match(a, used, e, from + 1)
    }
}

/// What one greedy run produces: the consumed indices of the subject in match
/// order, and the indices of the expected list split into those that found a
/// match and those that did not, each in expected-list order.
pub struct GreedyOutcome {
    /// Consumed subject indices, in the order they were claimed.
    pub used: Seq<int>,
    /// Indices of expected values that found a match, in expected order.
    pub matched: Seq<int>,
    /// Indices of expected values left unmatched, in expected order.
    pub unmatched: Seq<int>,
}

/// The greedy, leftmost-available assignment: expected values are tried in
/// order from position `k`, each claiming the first unconsumed equal subject
/// index, starting from the already-consumed set `used`.
pub open spec fn greedy_from<T: Describe>(a: Seq<T>, es: Seq<T>, k: int, used: Seq<int>) -> GreedyOutcome
    decreases es.len() - k,
{
    if k < 0 || k >= es.len() {
        GreedyOutcome { used, matched: Seq::empty(), unmatched: Seq::empty() }
    } else {
        match first_free_match(a, used, es[k], 0) {
            Some(i) => {
                let rest = greedy_from(a, es, k + 1, used.push(i));
                GreedyOutcome {
                    used: rest.used,
                    matched: seq![k] + rest.matched,
                    unmatched: rest.unmatched,
                }
            },
            None => {
                let rest = greedy_from(a, es, k + 1, used);
                GreedyOutcome {
                    used: rest.used,
                    matched: rest.matched,
                    unmatched: seq![k] + rest.unmatched,
                }
            },
        }
    }
}

/// The full greedy run over a subject and an expected list.
pub open spec fn greedy<T: Describe>(a: Seq<T>, es: Seq<T>) -> GreedyOutcome {
    greedy_from(a, es, 0, Seq::<int>::empty())
}

/// The expected-side text of a multi-value containment failure.
pub open spec fn all_of_text(body: Seq<char>) -> Seq<char> {
    "iterator to contain items <"@ + body + ">"@
}

/// True when the consumed-index list already claims subject index `i`.
fn id_used(used: &Vec<usize>, i: usize) -> (r: bool)
    ensures
        r == used@.map_values(|u: usize| u as int).contains(i as int),
{
    let ghost mapped = used@.map_values(|u: usize| u as int);
    let mut j: usize = 0;
    while j < used.len()
        invariant
            0 <= j <= used@.len(),
            mapped == used@.map_values(|u: usize| u as int),
            forall|t: int| 0 <= t < j ==> used@[t] != i,
        decreases used@.len() - j,
    {
        if used[j] == i {
            assert(mapped[j as int] == i as int);
            return true;
        }
        j += 1;
    }
    assert(!mapped.contains(i as int)) by {
        assert(forall|t: int| 0 <= t < mapped.len() ==> mapped[t] == used@[t] as int);
    }
    false
}

/// Materializes the subject once, then assigns each expected value, in order,
/// to the first unconsumed equal element; passes exactly when every expected
/// value found a match. A failure lists the matched expected values first, in
/// the order they matched, then the unmatched ones, against the full subject.
pub fn check_iterator_contains_all_of<T: Describe>(actual: &Vec<T>, expected: &Vec<T>) -> (r: Result<
    (),
    AssertionFailure,
>)
    ensures
        r.is_ok() <==> greedy(actual@, expected@).unmatched.len() == 0,
        r matches Err(f) ==> {
            let g = greedy(actual@, expected@);
            f.rendered() == two_part_format(
                all_of_text(list_rendering(select(expected@, g.matched + g.unmatched))),
                angled(list_rendering(actual@)),
            )
        },
{
    let ghost g = greedy(actual@, expected@);
    let mut used: Vec<usize> = Vec::new();
    let mut matched_ids: Vec<usize> = Vec::new();
    let mut unmatched_ids: Vec<usize> = Vec::new();
    proof {
        assert(used@.map_values(|u: usize| u as int) =~= Seq::<int>::empty());
        assert(matched_ids@.map_values(|u: usize| u as int) =~= Seq::<int>::empty());
        assert(unmatched_ids@.map_values(|u: usize| u as int) =~= Seq::<int>::empty());
        assert(Seq::<int>::empty() + g.matched =~= g.matched);
        assert(Seq::<int>::empty() + g.unmatched =~= g.unmatched);
    }
    let mut k: usize = 0;
    while k < expected.len()
        invariant
            0 <= k <= expected@.len(),
            g == greedy(actual@, expected@),
            forall|t: int| 0 <= t < used@.len() ==> used@[t] < actual@.len(),
            forall|t: int| 0 <= t < matched_ids@.len() ==> matched_ids@[t] < expected@.len(),
            forall|t: int| 0 <= t < unmatched_ids@.len() ==> unmatched_ids@[t] < expected@.len(),
            g.used == greedy_from(
                actual@,
                expected@,
                k as int,
                used@.map_values(|u: usize| u as int),
            ).used,
            g.matched == matched_ids@.map_values(|u: usize| u as int) + greedy_from(
                actual@,
                expected@,
                k as int,
                used@.map_values(|u: usize| u as int),
            ).matched,
            g.unmatched == unmatched_ids@.map_values(|u: usize| u as int) + greedy_from(
                actual@,
                expected@,
                k as int,
                used@.map_values(|u: usize| u as int),
            ).unmatched,
        decreases expected@.len() - k,
    {
        let ghost ui = used@.map_values(|u: usize| u as int);
        let mut chosen: usize = 0;
        let mut found_one: bool = false;
        let mut idx: usize = 0;
        while idx < actual.len() && !found_one
            invariant
                0 <= idx <= actual@.len(),
                0 <= k < expected@.len(),
                ui == used@.map_values(|u: usize| u as int),
                !found_one ==> first_free_match(actual@, ui, expected@[k as int], 0) == first_free_match(
                    actual@,
                    ui,
                    expected@[k as int],
                    idx as int,
                ),
                found_one ==> 0 <= chosen < actual@.len() && first_free_match(
                    actual@,
                    ui,
                    expected@[k as int],
                    0,
                ) == Some(chosen as int),
            decreases actual@.len() - idx + (if found_one {
                0int
            } else {
                1int
            }),
        {
            if !id_used(&used, idx) && expected[k].eq_item(&actual[idx]) {
                chosen = idx;
                found_one = true;
            } else {
                idx += 1;
            }
        }
        if found_one {
            used.push(chosen);
            matched_ids.push(k);
            proof {
                assert(used@.map_values(|u: usize| u as int) =~= ui.push(chosen as int));
                assert(matched_ids@.map_values(|u: usize| u as int) =~= matched_ids@.drop_last().map_values(
                    |u: usize| u as int,
                ).push(k as int));
                let rest = greedy_from(actual@, expected@, k as int + 1, ui.push(chosen as int));
                assert(greedy_from(actual@, expected@, k as int, ui).matched =~= seq![k as int]
                    + rest.matched);
                assert(matched_ids@.drop_last().map_values(|u: usize| u as int).push(k as int)
                    + rest.matched =~= matched_ids@.drop_last().map_values(|u: usize| u as int) + (
                seq![k as int] + rest.matched));
            }
        } else {
            assert(first_free_match(actual@, ui, expected@[k as int], idx as int) is None);
            unmatched_ids.push(k);
            proof {
                let rest = greedy_from(actual@, expected@, k as int + 1, ui);
                assert(greedy_from(actual@, expected@, k as int, ui).unmatched =~= seq![k as int]
                    + rest.unmatched);
                assert(unmatched_ids@.map_values(|u: usize| u as int) =~= unmatched_ids@.drop_last().map_values(
                    |u: usize| u as int,
                ).push(k as int));
                assert(unmatched_ids@.drop_last().map_values(|u: usize| u as int).push(k as int)
                    + rest.unmatched =~= unmatched_ids@.drop_last().map_values(|u: usize| u as int)
                    + (seq![k as int] + rest.unmatched));
            }
        }
        k += 1;
    }
    proof {
        let ui = used@.map_values(|u: usize| u as int);
        assert(greedy_from(actual@, expected@, k as int, ui).matched =~= Seq::<int>::empty());
        assert(greedy_from(actual@, expected@, k as int, ui).unmatched =~= Seq::<int>::empty());
        assert(g.matched =~= matched_ids@.map_values(|u: usize| u as int));
        assert(g.unmatched =~= unmatched_ids@.map_values(|u: usize| u as int));
    }
    if unmatched_ids.len() == 0 {
        assert(g.unmatched.len() == 0);
        Ok(())
    } else {
        proof {
            reveal_strlit("iterator to contain items <");
            reveal_strlit(">");
        }
        let mut e = String::from_str("iterator to contain items <");
        push_selected_list(&mut e, expected, &matched_ids, &unmatched_ids);
        e.push('>');
        assert(e@ =~= all_of_text(
            list_rendering(select(expected@, g.matched + g.unmatched)),
        ));
        let mut a = String::new();
        a.push('<');
        push_list(&mut a, actual);
        a.push('>');
        assert(a@ =~= angled(list_rendering(actual@)));
        Err(AssertionFailure::new().with_expected(e).with_actual(a))
    }
}

/// The mapped image of a sequence under the mapping function: one output item
/// per input element, each related to its element by the function's contract.
pub open spec fn mapped_of<T, M, F: Fn(&T) -> M>(a: Seq<T>, m: Seq<M>, f: F) -> bool {
    m.len() == a.len() && forall|i: int| #![trigger m[i]] 0 <= i < a.len() ==> call_ensures(
        f,
        (&a[i],),
        m[i],
    )
}

/// Applies the mapping to every element, with no short-circuit, then checks the
/// expected value for membership among the mapped values; a failure shows the
/// mapped values, not the original elements.
pub fn mapped_contains_in<T, M: Describe, F: Fn(&T) -> M>(
    actual: &Vec<T>,
    mapping_function: F,
    expected_value: &M,
) -> (r: Result<(), AssertionFailure>)
    requires
        forall|i: int| #![trigger actual@[i]] 0 <= i < actual@.len() ==> call_requires(
            mapping_function,
            (&actual@[i],),
        ),
    ensures
        r.is_ok() ==> exists|m: Seq<M>|
            mapped_of(actual@, m, mapping_function) && (exists|k: int|
                0 <= k < m.len() && m[k].eq_spec(expected_value)),
        r matches Err(f) ==> exists|m: Seq<M>|
            mapped_of(actual@, m, mapping_function) && (forall|k: int|
                0 <= k < m.len() ==> !m[k].eq_spec(expected_value)) && f.rendered()
                == two_part_format(
                containment_text(expected_value.rendering(), true),
                angled(list_rendering(m)),
            ),
{
    let mut mapped: Vec<M> = Vec::new();
    let mut i: usize = 0;
    while i < actual.len()
        invariant
            0 <= i <= actual@.len(),
            mapped@.len() == i,
            forall|k: int| #![trigger actual@[k]] 0 <= k < actual@.len() ==> call_requires(
                mapping_function,
                (&actual@[k],),
            ),
            forall|k: int| #![trigger mapped@[k]] 0 <= k < i ==> call_ensures(
                mapping_function,
                (&actual@[k],),
                mapped@[k],
            ),
        decreases actual@.len() - i,
    {
        let value = mapping_function(&actual[i]);
        mapped.push(value);
        i += 1;
    }
    assert(mapped_of(actual@, mapped@, mapping_function));
    let mut found = false;
    let mut k: usize = 0;
    while k < mapped.len()
        invariant
            0 <= k <= mapped@.len(),
            found == (exists|j: int| 0 <= j < k && mapped@[j].eq_spec(expected_value)),
        decreases mapped@.len() - k,
    {
        if mapped[k].eq_item(expected_value) {
            found = true;
        }
        k += 1;
    }
    if found {
        Ok(())
    } else {
        Err(panic_unmatched(&mapped, expected_value, true))
    }
}


impl<'s, T: Describe> Subject<'s, Vec<T>> {
    /// Passes exactly when the subject contains the expected value; the whole
    /// subject is scanned either way, so a failure can show every element.
    pub fn contains(&self, expected_value: &T) -> (r: Result<(), AssertionFailure>)
        ensures
            r.is_ok() <==> seq_contains(self.value@, *expected_value),
            r matches Err(f) ==> f.rendered() == two_part_format(
                containment_text(expected_value.rendering(), true),
                angled(list_rendering(self.value@)),
            ),
    {
        check_iterator_contains(self.value, expected_value, true)
    }

    /// The exact negation of [`Self::contains`]: passes exactly when no
    /// element equals the expected value.
    pub fn does_not_contain(&self, expected_value: &T) -> (r: Result<(), AssertionFailure>)
        ensures
            r.is_ok() <==> !seq_contains(self.value@, *expected_value),
            r matches Err(f) ==> f.rendered() == two_part_format(
                containment_text(expected_value.rendering(), false),
                angled(list_rendering(self.value@)),
            ),
    {
        check_iterator_contains(self.value, expected_value, false)
    }

    /// Passes exactly when the greedy, leftmost-available assignment matches
    /// every expected value to a distinct element; a failure lists the matched
    /// expected values first, then the unmatched ones.
    pub fn contains_all_of(&self, expected_values: &Vec<T>) -> (r: Result<(), AssertionFailure>)
        ensures
            r.is_ok() <==> greedy(self.value@, expected_values@).unmatched.len() == 0,
            r matches Err(f) ==> {
                let g = greedy(self.value@, expected_values@);
                f.rendered() == two_part_format(
                    all_of_text(list_rendering(select(expected_values@, g.matched + g.unmatched))),
                    angled(list_rendering(self.value@)),
                )
            },
    {
        check_iterator_contains_all_of(self.value, expected_values)
    }

    /// Passes exactly when the subject and the expected sequence have equal
    /// length and equal items at every position; a failure reports the first
    /// divergence and the prefix each side had yielded.
    pub fn equals_iterator(&self, expected_iter: &Vec<T>) -> (r: Result<(), AssertionFailure>)
        ensures
            r.is_ok() <==> seqs_equal(self.value@, expected_iter@),
            r matches Err(f) ==> {
                let d = divergence_from(self.value@, expected_iter@, 0);
                f.rendered() == two_part_format(
                    if d < expected_iter@.len() {
                        item_text(expected_iter@, d)
                    } else {
                        completed_text(expected_iter@, d)
                    },
                    if d < self.value@.len() {
                        item_text(self.value@, d)
                    } else {
                        completed_text(self.value@, d)
                    },
                )
            },
    {
        compare_iterators(self.value, expected_iter)
    }
}

/// The predicate and mapping matchers: a short-circuiting search for an
/// element the predicate accepts, and an eager membership check over the
/// mapped image of the subject.
pub trait MappingIterAssertions<T: Describe> {
    /// The materialized elements of the subject, in subject order.
    spec fn subject_items(&self) -> Seq<T>;

    /// Passes at the first element the predicate accepts, visiting nothing
    /// after it; fails only once the predicate has rejected every element,
    /// showing them all.
    fn matching_contains<F: Fn(&T) -> bool>(&self, matcher: F) -> (r: Result<
        (),
        AssertionFailure,
    >)
        requires
            forall|i: int| #![trigger self.subject_items()[i]] 0 <= i < self.subject_items().len()
                ==> call_requires(matcher, (&self.subject_items()[i],)),
        ensures
            r.is_ok() ==> exists|i: int|
                0 <= i < self.subject_items().len() && call_ensures(
                    matcher,
                    (&self.subject_items()[i],),
                    true,
                ) && (forall|j: int|
                    0 <= j < i ==> call_ensures(matcher, (&self.subject_items()[j],), false)),
            r matches Err(f) ==> (forall|j: int|
                0 <= j < self.subject_items().len() ==> call_ensures(
                    matcher,
                    (&self.subject_items()[j],),
                    false,
                )) && f.rendered() == single_format(predicate_failure_text(self.subject_items())),
    ;

    /// Applies the mapping to every element with no short-circuit, then tests
    /// membership of the expected value among the mapped values; a failure
    /// shows the mapped values, not the original elements.
    fn mapped_contains<M: Describe, F: Fn(&T) -> M>(&self, mapping_function: F, expected_value: &M) -> (r:
        Result<(), AssertionFailure>)
        requires
            forall|i: int| #![trigger self.subject_items()[i]] 0 <= i < self.subject_items().len()
                ==> call_requires(mapping_function, (&self.subject_items()[i],)),
        ensures
            r.is_ok() ==> exists|m: Seq<M>|
                mapped_of(self.subject_items(), m, mapping_function) && (exists|k: int|
                    0 <= k < m.len() && m[k].eq_spec(expected_value)),
            r matches Err(f) ==> exists|m: Seq<M>|
                mapped_of(self.subject_items(), m, mapping_function) && (forall|k: int|
                    0 <= k < m.len() ==> !m[k].eq_spec(expected_value)) && f.rendered()
                    == two_part_format(
                    containment_text(expected_value.rendering(), true),
                    angled(list_rendering(m)),
                ),
    ;
}

impl<'s, T: Describe> MappingIterAssertions<T> for Subject<'s, Vec<T>> {
    open spec fn subject_items(&self) -> Seq<T> {
        self.value@
    }

    fn matching_contains<F: Fn(&T) -> bool>(&self, matcher: F) -> (r: Result<
        (),
        AssertionFailure,
    >) {
        proof {
            assert forall|i: int| 0 <= i < self.value@.len() implies call_requires(
                matcher,
                (&self.value@[i],),
            ) by {
                assert(call_requires(matcher, (&self.subject_items()[i],)));
            }
        }
        let r = matching_contains_in(self.value, matcher);
        proof {
            if r.is_ok() {
                let i = choose|i: int|
                    0 <= i < self.value@.len() && call_ensures(matcher, (&self.value@[i],), true)
                        && (forall|j: int|
                        0 <= j < i ==> call_ensures(matcher, (&self.value@[j],), false));
                assert(call_ensures(matcher, (&self.subject_items()[i],), true));
                assert forall|j: int| 0 <= j < i implies call_ensures(
                    matcher,
                    (&self.subject_items()[j],),
                    false,
                ) by {
                    assert(call_ensures(matcher, (&self.value@[j],), false));
                }
            }
            if r is Err {
                assert forall|j: int| 0 <= j < self.subject_items().len() implies call_ensures(
                    matcher,
                    (&self.subject_items()[j],),
                    false,
                ) by {
                    assert(call_ensures(matcher, (&self.value@[j],), false));
                }
            }
        }
        r
    }

    fn mapped_contains<M: Describe, F: Fn(&T) -> M>(&self, mapping_function: F, expected_value: &M) -> (r:
        Result<(), AssertionFailure>) {
        proof {
            assert forall|i: int| 0 <= i < self.value@.len() implies call_requires(
                mapping_function,
                (&self.value@[i],),
            ) by {
                assert(call_requires(mapping_function, (&self.subject_items()[i],)));
            }
        }
        let r = mapped_contains_in(self.value, mapping_function, expected_value);
        proof {
            if r.is_ok() {
                let m = choose|m: Seq<M>|
                    mapped_of(self.value@, m, mapping_function) && (exists|k: int|
                        0 <= k < m.len() && m[k].eq_spec(expected_value));
                assert(mapped_of(self.subject_items(), m, mapping_function)) by {
                    assert forall|i: int| #![trigger m[i]] 0 <= i < self.subject_items().len()
                        implies call_ensures(
                        mapping_function,
                        (&self.subject_items()[i],),
                        m[i],
                    ) by {
                        assert(call_ensures(mapping_function, (&self.value@[i],), m[i]));
                    }
                }
            }
            if r is Err {
                let m = choose|m: Seq<M>|
                    mapped_of(self.value@, m, mapping_function) && (forall|k: int|
                        0 <= k < m.len() ==> !m[k].eq_spec(expected_value)) && (r matches Err(f)
                        && f.rendered() == two_part_format(
                        containment_text(expected_value.rendering(), true),
                        angled(list_rendering(m)),
                    ));
                assert(mapped_of(self.subject_items(), m, mapping_function)) by {
                    assert forall|i: int| #![trigger m[i]] 0 <= i < self.subject_items().len()
                        implies call_ensures(
                        mapping_function,
                        (&self.subject_items()[i],),
                        m[i],
                    ) by {
                        assert(call_ensures(mapping_function, (&self.value@[i],), m[i]));
                    }
                }
            }
        }
        r
    }
}

} // verus!
