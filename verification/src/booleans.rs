//! Assertions on boolean subjects.

use vstd::prelude::*;
use vstd::string::StringExecFns;

use crate::failure::{two_part_format, AssertionFailure};
use crate::subject::Subject;

verus! {

/// Assertions available on a boolean subject.
pub trait BooleanAssertions {
    /// The boolean under test.
    spec fn subject_value(&self) -> bool;

    /// Passes exactly when the subject is true.
    fn is_true(&self) -> (r: Result<(), AssertionFailure>)
        ensures
            r.is_ok() <==> self.subject_value(),
            r matches Err(f) ==> f.rendered() == two_part_format(
                "bool to be <true>"@,
                "<false>"@,
            ),
    ;

    /// Passes exactly when the subject is false.
    fn is_false(&self) -> (r: Result<(), AssertionFailure>)
        ensures
            r.is_ok() <==> !self.subject_value(),
            r matches Err(f) ==> f.rendered() == two_part_format(
                "bool to be <false>"@,
                "<true>"@,
            ),
    ;
}

impl<'s> BooleanAssertions for Subject<'s, bool> {
    open spec fn subject_value(&self) -> bool {
        *self.value
    }

    fn is_true(&self) -> (r: Result<(), AssertionFailure>) {
        if *self.value {
            Ok(())
        } else {
            proof {
                reveal_strlit("bool to be <true>");
                reveal_strlit("<false>");
            }
            Err(
                AssertionFailure::new().with_expected(
                    String::from_str("bool to be <true>"),
                ).with_actual(String::from_str("<false>")),
            )
        }
    }

    fn is_false(&self) -> (r: Result<(), AssertionFailure>) {
        if *self.value {
            proof {
                reveal_strlit("bool to be <false>");
                reveal_strlit("<true>");
            }
            Err(
                AssertionFailure::new().with_expected(
                    String::from_str("bool to be <false>"),
                ).with_actual(String::from_str("<true>")),
            )
        } else {
            Ok(())
        }
    }
}

} // verus!
