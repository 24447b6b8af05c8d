//! The failure reporter: a structured record carrying an "expected" and an
//! "actual" description, or one free-form message, and the exact text it
//! renders to.

use vstd::prelude::*;
use vstd::string::StringExecFns;

verus! {

/// The text of a two-part failure: one line for what was expected and one for
/// what was actually found.
pub open spec fn two_part_format(expected: Seq<char>, actual: Seq<char>) -> Seq<char> {
    "\n\texpected: "@ + expected + "\n\t but was: "@ + actual
}

/// The text of a single-message failure.
pub open spec fn single_format(message: Seq<char>) -> Seq<char> {
    "\n\t"@ + message
}

/// A mismatch found by a matcher. It is built on the failure path only and
/// handed back to the caller; the caller decides how to surface it.
#[derive(Debug)]
pub struct AssertionFailure {
    pub expected: Option<String>,
    pub actual: Option<String>,
    pub single: Option<String>,
}

impl AssertionFailure {
    /// What this failure renders to: the single free-form message when one was
    /// given, otherwise the two-part expected / actual form.
    pub open spec fn rendered(&self) -> Seq<char> {
        match self.single {
            Some(m) => single_format(m@),
            None => two_part_format(
                match self.expected {
                    Some(e) => e@,
                    None => Seq::<char>::empty(),
                },
                match self.actual {
                    Some(a) => a@,
                    None => Seq::<char>::empty(),
                },
            ),
        }
    }

    /// Starts an empty failure record.
    pub fn new() -> (r: Self)
        ensures
            r.expected is None,
            r.actual is None,
            r.single is None,
    {
        AssertionFailure { expected: None, actual: None, single: None }
    }

    /// Records the description of what was expected.
    pub fn with_expected(self, expected: String) -> (r: Self)
        ensures
            r.expected == Some(expected),
            r.actual == self.actual,
            r.single == self.single,
    {
        AssertionFailure { expected: Some(expected), ..self }
    }

    /// Records the description of what was actually found.
    pub fn with_actual(self, actual: String) -> (r: Self)
        ensures
            r.actual == Some(actual),
            r.expected == self.expected,
            r.single == self.single,
    {
        AssertionFailure { actual: Some(actual), ..self }
    }

    /// Builds a failure that carries one free-form message instead of the
    /// expected / actual pair.
    pub fn from_message(message: String) -> (r: Self)
        ensures
            r.single == Some(message),
            r.expected is None,
            r.actual is None,
    {
        AssertionFailure { expected: None, actual: None, single: Some(message) }
    }

    /// The full failure text, exactly as [`Self::rendered`] states it.
    pub fn message(&self) -> (r: String)
        ensures
            r@ == self.rendered(),
    {
        match &self.single {
            Some(m) => {
                let mut out = String::from_str("\n\t");
                proof {
                    reveal_strlit("\n\t");
                }
                out.append(m.as_str());
                assert(out@ =~= self.rendered());
                out
            },
            None => {
                let mut out = String::from_str("\n\texpected: ");
                proof {
                    reveal_strlit("\n\texpected: ");
                    reveal_strlit("\n\t but was: ");
                }
                match &self.expected {
                    Some(e) => {
                        out.append(e.as_str());
                    },
                    None => {},
                }
                out.append("\n\t but was: ");
                match &self.actual {
                    Some(a) => {
                        out.append(a.as_str());
                    },
                    None => {},
                }
                assert(out@ =~= self.rendered());
                out
            },
        }
    }
}

} // verus!
