//! The subject handle: the value under test together with its optional
//! diagnostic description, threaded through every assertion call and re-wrapped
//! when an assertion narrows the subject to an inner value.

use vstd::prelude::*;
use vstd::string::StringExecFns;

use crate::describe::{angled, Describe};
use crate::failure::{two_part_format, AssertionFailure};

verus! {

/// A value under test, with optional diagnostic metadata. Matchers are methods
/// on this handle; a narrowing matcher hands back a new handle over the inner
/// value, carrying the same metadata.
#[derive(Debug)]
pub struct Subject<'s, I> {
    /// The value under test.
    pub value: &'s I,
    /// An optional caller-supplied description, shown nowhere by the matchers
    /// themselves but kept for the surrounding harness.
    pub description: Option<String>,
}

/// Wraps a value for assertion chaining.
pub fn assert_that<'s, I>(value: &'s I) -> (s: Subject<'s, I>)
    ensures
        s.value == value,
        s.description is None,
{
    Subject { value, description: None }
}

/// A pending description, waiting for the value it describes.
pub struct Described {
    /// The caller-supplied description.
    pub description: String,
}

/// Starts an assertion chain under a description.
pub fn asserting(description: &str) -> (d: Described)
    ensures
        d.description@ == description@,
{
    Described { description: String::from_str(description) }
}

impl Described {
    /// Wraps a value for assertion chaining, keeping the description.
    pub fn that<'s, I>(self, value: &'s I) -> (s: Subject<'s, I>)
        ensures
            s.value == value,
            s.description == Some(self.description),
    {
        Subject { value, description: Some(self.description) }
    }
}

impl<'s, I> Subject<'s, I> {
    /// Re-wraps an inner value under the same diagnostic metadata.
    pub fn narrowed<'n, N>(&self, value: &'n N) -> (s: Subject<'n, N>)
        ensures
            s.value == value,
            s.description == self.description,
    {
        let description = match &self.description {
            Some(d) => Some(d.clone()),
            None => None,
        };
        Subject { value, description }
    }
}

/// The expected-side text of an equality failure.
pub open spec fn equality_text(rendering: Seq<char>) -> Seq<char> {
    angled(rendering)
}

impl<'s, T: Describe> Subject<'s, T> {
    /// Passes exactly when the subject equals the expected value under the
    /// element equality relation; fails otherwise, showing both renderings.
    pub fn is_equal_to(&self, expected: &T) -> (r: Result<(), AssertionFailure>)
        ensures
            r.is_ok() <==> self.value.eq_spec(expected),
            r matches Err(f) ==> f.rendered() == two_part_format(
                equality_text(expected.rendering()),
                equality_text(self.value.rendering()),
            ),
    {
        if self.value.eq_item(expected) {
            Ok(())
        } else {
            let mut e = String::new();
            e.push('<');
            let expected_piece = expected.render();
            e.append(expected_piece.as_str());
            e.push('>');
            let mut a = String::new();
            a.push('<');
            let actual_piece = self.value.render();
            a.append(actual_piece.as_str());
            a.push('>');
            proof {
                assert(e@ =~= equality_text(expected.rendering()));
                assert(a@ =~= equality_text(self.value.rendering()));
            }
            Err(AssertionFailure::new().with_expected(e).with_actual(a))
        }
    }
}

} // verus!
