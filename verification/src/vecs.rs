//! Assertions on vector subjects: length and emptiness.

use vstd::prelude::*;
use vstd::string::StringExecFns;

use crate::failure::{two_part_format, AssertionFailure};
use crate::subject::Subject;
use crate::text::{dec_rep, push_len};

verus! {

/// The expected-side text of a length mismatch.
pub open spec fn vec_length_expected_text(n: nat) -> Seq<char> {
    "vec to have length <"@ + dec_rep(n) + ">"@
}

/// The actual-side text of a length mismatch.
pub open spec fn vec_length_actual_text(n: nat) -> Seq<char> {
    "<"@ + dec_rep(n) + ">"@
}

/// The actual-side text of a failed emptiness check.
pub open spec fn vec_with_length_text(n: nat) -> Seq<char> {
    "a vec with length <"@ + dec_rep(n) + ">"@
}

/// Assertions available on a vector subject.
pub trait VecAssertions {
    /// The number of elements of the vector under test.
    spec fn subject_len(&self) -> nat;

    /// Passes exactly when the vector has the expected length.
    fn has_length(&self, expected: usize) -> (r: Result<(), AssertionFailure>)
        ensures
            r.is_ok() <==> self.subject_len() == expected,
            r matches Err(f) ==> f.rendered() == two_part_format(
                vec_length_expected_text(expected as nat),
                vec_length_actual_text(self.subject_len()),
            ),
    ;

    /// Passes exactly when the vector is empty.
    fn is_empty(&self) -> (r: Result<(), AssertionFailure>)
        ensures
            r.is_ok() <==> self.subject_len() == 0,
            r matches Err(f) ==> f.rendered() == two_part_format(
                "an empty vec"@,
                vec_with_length_text(self.subject_len()),
            ),
    ;

    /// Passes exactly when the vector is not empty.
    fn is_not_empty(&self) -> (r: Result<(), AssertionFailure>)
        ensures
            r.is_ok() <==> self.subject_len() != 0,
            r matches Err(f) ==> f.rendered() == two_part_format(
                "a non empty vec"@,
                "an empty vec"@,
            ),
    ;
}

fn length_failure(expected: usize, actual_len: usize) -> (f: AssertionFailure)
    ensures
        f.rendered() == two_part_format(
            vec_length_expected_text(expected as nat),
            vec_length_actual_text(actual_len as nat),
        ),
{
    proof {
        reveal_strlit("vec to have length <");
        reveal_strlit("<");
        reveal_strlit(">");
    }
    let mut e = String::from_str("vec to have length <");
    push_len(&mut e, expected);
    e.append(">");
    assert(e@ =~= vec_length_expected_text(expected as nat));
    let mut a = String::from_str("<");
    push_len(&mut a, actual_len);
    a.append(">");
    assert(a@ =~= vec_length_actual_text(actual_len as nat));
    AssertionFailure::new().with_expected(e).with_actual(a)
}

fn emptiness_failure(actual_len: usize) -> (f: AssertionFailure)
    ensures
        f.rendered() == two_part_format("an empty vec"@, vec_with_length_text(actual_len as nat)),
{
    proof {
        reveal_strlit("an empty vec");
        reveal_strlit("a vec with length <");
        reveal_strlit(">");
    }
    let mut a = String::from_str("a vec with length <");
    push_len(&mut a, actual_len);
    a.append(">");
    assert(a@ =~= vec_with_length_text(actual_len as nat));
    AssertionFailure::new().with_expected(String::from_str("an empty vec")).with_actual(a)
}

fn non_emptiness_failure() -> (f: AssertionFailure)
    ensures
        f.rendered() == two_part_format("a non empty vec"@, "an empty vec"@),
{
    proof {
        reveal_strlit("a non empty vec");
        reveal_strlit("an empty vec");
    }
    AssertionFailure::new().with_expected(String::from_str("a non empty vec")).with_actual(
        String::from_str("an empty vec"),
    )
}

impl<'s, T> VecAssertions for Subject<'s, Vec<T>> {
    open spec fn subject_len(&self) -> nat {
        self.value@.len()
    }

    fn has_length(&self, expected: usize) -> (r: Result<(), AssertionFailure>) {
        let length = self.value.len();
        if length == expected {
            Ok(())
        } else {
            Err(length_failure(expected, length))
        }
    }

    fn is_empty(&self) -> (r: Result<(), AssertionFailure>) {
        if self.value.len() == 0 {
            Ok(())
        } else {
            Err(emptiness_failure(self.value.len()))
        }
    }

    fn is_not_empty(&self) -> (r: Result<(), AssertionFailure>) {
        if self.value.len() != 0 {
            Ok(())
        } else {
            Err(non_emptiness_failure())
        }
    }
}

impl<'s, T> VecAssertions for Subject<'s, &Vec<T>> {
    open spec fn subject_len(&self) -> nat {
        (*self.value)@.len()
    }

    fn has_length(&self, expected: usize) -> (r: Result<(), AssertionFailure>) {
        let length = self.value.len();
        if length == expected {
            Ok(())
        } else {
            Err(length_failure(expected, length))
        }
    }

    fn is_empty(&self) -> (r: Result<(), AssertionFailure>) {
        if self.value.len() == 0 {
            Ok(())
        } else {
            Err(emptiness_failure(self.value.len()))
        }
    }

    fn is_not_empty(&self) -> (r: Result<(), AssertionFailure>) {
        if self.value.len() != 0 {
            Ok(())
        } else {
            Err(non_emptiness_failure())
        }
    }
}

} // verus!
