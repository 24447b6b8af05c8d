//! Assertions on hash-set subjects: length, emptiness, and membership through
//! the containment engine over a one-off materialization of the elements.

use vstd::prelude::*;
use vstd::string::StringExecFns;

use std::collections::hash_map::RandomState;
use std::collections::HashSet;
use std::hash::Hash;

use crate::describe::{angled, list_rendering, Describe};
use crate::failure::{two_part_format, AssertionFailure};
use crate::iter::{check_iterator_contains, containment_text};
use crate::subject::Subject;
use crate::text::{dec_rep, push_len};

verus! {

broadcast use vstd::std_specs::hash::group_hash_axioms;

/// The model of a hash set is meaningful only when its key type hashes
/// deterministically and its hasher is the standard one.
pub open spec fn set_model_holds<K>() -> bool {
    vstd::std_specs::hash::obeys_key_model::<K>()
        && vstd::std_specs::hash::builds_valid_hashers::<RandomState>()
}

/// `v` holds one clone of each element of `s`, in some order: the originals
/// are the set's distinct elements, and each slot of `v` is a clone of the
/// original at the same position.
pub open spec fn is_materialization<K: Clone>(orig: Seq<K>, v: Seq<K>, s: Set<K>) -> bool {
    &&& orig.no_duplicates()
    &&& orig.len() == v.len()
    &&& forall|x: K| #[trigger] orig.contains(x) <==> s.contains(x)
    &&& forall|i: int| 0 <= i < v.len() ==> vstd::pervasive::cloned::<K>(#[trigger] orig[i], v[i])
}

/// The element equality relation does not tell a clone from its original: a
/// value equals a clone exactly when it equals what the clone was made from.
pub open spec fn clone_respects_eq<K: Describe + Clone>() -> bool {
    forall|a: K, b: K, c: K|
        #![trigger vstd::pervasive::cloned::<K>(a, b), c.eq_spec(&b)]
        vstd::pervasive::cloned::<K>(a, b) ==> c.eq_spec(&b) == c.eq_spec(&a)
}

/// Relies on `HashSet::iter`: yields each element of the set exactly once, in
/// no specified order; the elements are cloned into the returned vector.
#[verifier::external_body]
fn set_elements<K: Clone>(s: &HashSet<K>) -> (v: Vec<K>)
    ensures
        set_model_holds::<K>() ==> v@.len() == s@.len() && (exists|orig: Seq<K>|
            is_materialization(orig, v@, s@)),
{
    s.iter().cloned().collect()
}

/// The expected-side text of a length mismatch.
pub open spec fn set_length_expected_text(n: nat) -> Seq<char> {
    "HashSet to have length <"@ + dec_rep(n) + ">"@
}

/// The actual-side text of a length or emptiness mismatch.
pub open spec fn set_with_length_text(n: nat) -> Seq<char> {
    "a HashSet with length <"@ + dec_rep(n) + ">"@
}

/// Assertions available on a hash-set subject.
pub trait HashSetAssertions<K: Describe + Clone + Eq + Hash> {
    /// The modelled contents of the set under test.
    spec fn subject_set(&self) -> Set<K>;

    /// What the set reports as its length.
    spec fn subject_len(&self) -> usize;

    /// Passes exactly when the set reports the expected length; under the key
    /// model, that length is the cardinality of the modelled contents.
    fn has_length(&self, expected: usize) -> (r: Result<(), AssertionFailure>)
        ensures
            r.is_ok() <==> self.subject_len() == expected,
            set_model_holds::<K>() ==> (r.is_ok() <==> self.subject_set().len() == expected),
            r matches Err(f) ==> f.rendered() == two_part_format(
                set_length_expected_text(expected as nat),
                "<"@ + dec_rep(self.subject_len() as nat) + ">"@,
            ),
    ;

    /// Passes exactly when the set is empty.
    fn is_empty(&self) -> (r: Result<(), AssertionFailure>)
        ensures
            r.is_ok() <==> self.subject_set().is_empty(),
            r matches Err(f) ==> f.rendered() == two_part_format(
                "an empty HashSet"@,
                set_with_length_text(self.subject_len() as nat),
            ),
    ;

    /// Passes exactly when the set is not empty.
    fn is_not_empty(&self) -> (r: Result<(), AssertionFailure>)
        ensures
            r.is_ok() <==> !self.subject_set().is_empty(),
            r matches Err(f) ==> f.rendered() == two_part_format(
                "an non empty HashSet"@,
                set_with_length_text(self.subject_len() as nat),
            ),
    ;

    /// Passes exactly when, under the key model and a clone-blind equality,
    /// some element of the set equals the expected value; a failure shows one
    /// clone of each element, in the unspecified order the set yielded them.
    fn contains(&self, expected_value: &K) -> (r: Result<(), AssertionFailure>)
        ensures
            set_model_holds::<K>() && clone_respects_eq::<K>() ==> (r.is_ok() <==> exists|x: K|
                #[trigger] self.subject_set().contains(x) && expected_value.eq_spec(&x)),
            r matches Err(f) ==> exists|elems: Seq<K>|
                (set_model_holds::<K>() ==> (exists|orig: Seq<K>|
                    is_materialization(orig, elems, self.subject_set()))) && f.rendered()
                    == two_part_format(
                    containment_text(expected_value.rendering(), true),
                    angled(#[trigger] list_rendering(elems)),
                ),
    ;

    /// The exact negation of `contains`.
    fn does_not_contain(&self, expected_value: &K) -> (r: Result<(), AssertionFailure>)
        ensures
            set_model_holds::<K>() && clone_respects_eq::<K>() ==> (r.is_ok() <==> !(exists|x: K|
                #[trigger] self.subject_set().contains(x) && expected_value.eq_spec(&x))),
            r matches Err(f) ==> exists|elems: Seq<K>|
                (set_model_holds::<K>() ==> (exists|orig: Seq<K>|
                    is_materialization(orig, elems, self.subject_set()))) && f.rendered()
                    == two_part_format(
                    containment_text(expected_value.rendering(), false),
                    angled(#[trigger] list_rendering(elems)),
                ),
    ;
}

fn set_length_failure(expected: usize, actual_len: usize) -> (f: AssertionFailure)
    ensures
        f.rendered() == two_part_format(
            set_length_expected_text(expected as nat),
            "<"@ + dec_rep(actual_len as nat) + ">"@,
        ),
{
    proof {
        reveal_strlit("HashSet to have length <");
        reveal_strlit("<");
        reveal_strlit(">");
    }
    let mut e = String::from_str("HashSet to have length <");
    push_len(&mut e, expected);
    e.append(">");
    assert(e@ =~= set_length_expected_text(expected as nat));
    let mut a = String::from_str("<");
    push_len(&mut a, actual_len);
    a.append(">");
    assert(a@ =~= "<"@ + dec_rep(actual_len as nat) + ">"@);
    AssertionFailure::new().with_expected(e).with_actual(a)
}

fn set_emptiness_failure(want_empty: bool, actual_len: usize) -> (f: AssertionFailure)
    ensures
        want_empty ==> f.rendered() == two_part_format(
            "an empty HashSet"@,
            set_with_length_text(actual_len as nat),
        ),
        !want_empty ==> f.rendered() == two_part_format(
            "an non empty HashSet"@,
            set_with_length_text(actual_len as nat),
        ),
{
    proof {
        reveal_strlit("an empty HashSet");
        reveal_strlit("an non empty HashSet");
        reveal_strlit("a HashSet with length <");
        reveal_strlit(">");
    }
    let e = if want_empty {
        String::from_str("an empty HashSet")
    } else {
        String::from_str("an non empty HashSet")
    };
    let mut a = String::from_str("a HashSet with length <");
    push_len(&mut a, actual_len);
    a.append(">");
    assert(a@ =~= set_with_length_text(actual_len as nat));
    AssertionFailure::new().with_expected(e).with_actual(a)
}

impl<'s, K: Describe + Clone + Eq + Hash> HashSetAssertions<K> for Subject<'s, HashSet<K>> {
    open spec fn subject_set(&self) -> Set<K> {
        self.value@
    }

    open spec fn subject_len(&self) -> usize {
        vstd::std_specs::hash::spec_hash_set_len(self.value)
    }

    fn has_length(&self, expected: usize) -> (r: Result<(), AssertionFailure>) {
        let length = self.value.len();
        if length == expected {
            Ok(())
        } else {
            Err(set_length_failure(expected, length))
        }
    }

    fn is_empty(&self) -> (r: Result<(), AssertionFailure>) {
        if self.value.is_empty() {
            Ok(())
        } else {
            Err(set_emptiness_failure(true, self.value.len()))
        }
    }

    fn is_not_empty(&self) -> (r: Result<(), AssertionFailure>) {
        if !self.value.is_empty() {
            Ok(())
        } else {
            Err(set_emptiness_failure(false, self.value.len()))
        }
    }

    fn contains(&self, expected_value: &K) -> (r: Result<(), AssertionFailure>) {
        let elems = set_elements(self.value);
        let r = check_iterator_contains(&elems, expected_value, true);
        proof {
            if set_model_holds::<K>() && clone_respects_eq::<K>() {
                lemma_materialized_membership(elems@, self.subject_set(), *expected_value);
            }
            if r is Err {
                let f = r->Err_0;
                assert(exists|elems_seq: Seq<K>|
                    (set_model_holds::<K>() ==> (exists|orig: Seq<K>|
                        is_materialization(orig, elems_seq, self.subject_set()))) && f.rendered()
                        == two_part_format(
                        containment_text(expected_value.rendering(), true),
                        angled(#[trigger] list_rendering(elems_seq)),
                    )) by {
                    if set_model_holds::<K>() {
                        let orig = choose|orig: Seq<K>|
                            is_materialization(orig, elems@, self.value@);
                        assert(is_materialization(orig, elems@, self.subject_set()));
                    }
                    assert(f.rendered() == two_part_format(
                        containment_text(expected_value.rendering(), true),
                        angled(list_rendering(elems@)),
                    ));
                }
            }
        }
        r
    }

    fn does_not_contain(&self, expected_value: &K) -> (r: Result<(), AssertionFailure>) {
        let elems = set_elements(self.value);
        let r = check_iterator_contains(&elems, expected_value, false);
        proof {
            if set_model_holds::<K>() && clone_respects_eq::<K>() {
                lemma_materialized_membership(elems@, self.subject_set(), *expected_value);
            }
            if r is Err {
                let f = r->Err_0;
                assert(exists|elems_seq: Seq<K>|
                    (set_model_holds::<K>() ==> (exists|orig: Seq<K>|
                        is_materialization(orig, elems_seq, self.subject_set()))) && f.rendered()
                        == two_part_format(
                        containment_text(expected_value.rendering(), false),
                        angled(#[trigger] list_rendering(elems_seq)),
                    )) by {
                    if set_model_holds::<K>() {
                        let orig = choose|orig: Seq<K>|
                            is_materialization(orig, elems@, self.value@);
                        assert(is_materialization(orig, elems@, self.subject_set()));
                    }
                    assert(f.rendered() == two_part_format(
                        containment_text(expected_value.rendering(), false),
                        angled(list_rendering(elems@)),
                    ));
                }
            }
        }
        r
    }
}

/// Membership among one-clone-per-element materialized contents agrees with
/// membership among the set's own elements, as long as the element equality
/// relation does not tell clones from originals.
proof fn lemma_materialized_membership<K: Describe + Clone>(elems: Seq<K>, s: Set<K>, v: K)
    requires
        clone_respects_eq::<K>(),
        exists|orig: Seq<K>| is_materialization(orig, elems, s),
    ensures
        (exists|i: int| 0 <= i < elems.len() && v.eq_spec(&elems[i])) <==> (exists|x: K|
            #[trigger] s.contains(x) && v.eq_spec(&x)),
{
    let orig = choose|orig: Seq<K>| is_materialization(orig, elems, s);
    if exists|i: int| 0 <= i < elems.len() && v.eq_spec(&elems[i]) {
        let i = choose|i: int| 0 <= i < elems.len() && v.eq_spec(&elems[i]);
        assert(vstd::pervasive::cloned::<K>(orig[i], elems[i]));
        assert(v.eq_spec(&orig[i]));
        assert(orig.contains(orig[i]));
        assert(s.contains(orig[i]));
    }
    if exists|x: K| #[trigger] s.contains(x) && v.eq_spec(&x) {
        let x = choose|x: K| #[trigger] s.contains(x) && v.eq_spec(&x);
        assert(orig.contains(x));
        let i = choose|i: int| 0 <= i < orig.len() && orig[i] == x;
        assert(vstd::pervasive::cloned::<K>(orig[i], elems[i]));
        assert(v.eq_spec(&elems[i]));
    }
}

} // verus!
