//! Assertions on `Result` subjects: variant checks that narrow to the inner
//! value, and containment checks against an expected inner value.

use vstd::prelude::*;
use vstd::string::StringExecFns;

use crate::describe::Describe;
use crate::failure::{two_part_format, AssertionFailure};
use crate::subject::Subject;

verus! {

/// The text naming an `Ok` result carrying the given value.
pub open spec fn ok_wrapper_text(rendering: Seq<char>) -> Seq<char> {
    "result[ok]<"@ + rendering + ">"@
}

/// The text naming an `Err` result carrying the given value.
pub open spec fn err_wrapper_text(rendering: Seq<char>) -> Seq<char> {
    "result[error]<"@ + rendering + ">"@
}

/// The text of one side of a containment mismatch on a result.
pub open spec fn detail_text(variant: Seq<char>, rendering: Seq<char>) -> Seq<char> {
    "Result["@ + variant + "] containing <"@ + rendering + ">"@
}

/// Variant assertions on a result subject; each passing call narrows the
/// subject to the inner value it found.
pub trait ResultAssertions<'s, T: Describe, E: Describe> {
    /// The result under test.
    spec fn subject_result(&self) -> Result<T, E>;

    /// The diagnostic metadata of the subject, carried into the narrowed
    /// handle.
    spec fn subject_description(&self) -> Option<String>;

    /// Passes exactly when the subject is `Ok`, handing back the inner value
    /// under the same metadata.
    fn is_ok(&self) -> (r: Result<Subject<'s, T>, AssertionFailure>)
        ensures
            r.is_ok() <==> self.subject_result() is Ok,
            r matches Ok(sub) ==> self.subject_result() matches Ok(v) && *sub.value == v
                && sub.description == self.subject_description(),
            r matches Err(f) ==> self.subject_result() matches Err(e) && f.rendered()
                == two_part_format("result[ok]"@, err_wrapper_text(e.rendering())),
    ;

    /// Passes exactly when the subject is `Err`, handing back the inner value
    /// under the same metadata.
    fn is_err(&self) -> (r: Result<Subject<'s, E>, AssertionFailure>)
        ensures
            r.is_ok() <==> self.subject_result() is Err,
            r matches Ok(sub) ==> self.subject_result() matches Err(v) && *sub.value == v
                && sub.description == self.subject_description(),
            r matches Err(f) ==> self.subject_result() matches Ok(v) && f.rendered()
                == two_part_format("result[error]"@, ok_wrapper_text(v.rendering())),
    ;
}

/// Containment assertions on a result subject: the variant and its inner
/// value both have to match.
pub trait ContainingResultAssertions<T: Describe, E: Describe> {
    /// The result under test.
    spec fn subject_result(&self) -> Result<T, E>;

    /// Passes exactly when the subject is `Ok` and its value equals the
    /// expected one under the element equality relation.
    fn is_ok_containing(&self, expected_value: &T) -> (r: Result<(), AssertionFailure>)
        ensures
            r.is_ok() <==> (self.subject_result() matches Ok(v) && v.eq_spec(expected_value)),
            r matches Err(f) ==> match self.subject_result() {
                Ok(v) => f.rendered() == two_part_format(
                    detail_text("ok"@, expected_value.rendering()),
                    detail_text("ok"@, v.rendering()),
                ),
                Err(e) => f.rendered() == two_part_format(
                    detail_text("ok"@, expected_value.rendering()),
                    detail_text("err"@, e.rendering()),
                ),
            },
    ;

    /// Passes exactly when the subject is `Err` and its value equals the
    /// expected one under the element equality relation.
    fn is_err_containing(&self, expected_value: &E) -> (r: Result<(), AssertionFailure>)
        ensures
            r.is_ok() <==> (self.subject_result() matches Err(e) && e.eq_spec(expected_value)),
            r matches Err(f) ==> match self.subject_result() {
                Err(e) => f.rendered() == two_part_format(
                    detail_text("err"@, expected_value.rendering()),
                    detail_text("err"@, e.rendering()),
                ),
                Ok(v) => f.rendered() == two_part_format(
                    detail_text("err"@, expected_value.rendering()),
                    detail_text("ok"@, v.rendering()),
                ),
            },
    ;
}

/// Builds one side of a containment mismatch, naming the variant and the
/// rendered value.
pub fn build_detail_message<T: Describe>(ok_variant: bool, value: &T) -> (r: String)
    ensures
        r@ == detail_text(
            if ok_variant {
                "ok"@
            } else {
                "err"@
            },
            value.rendering(),
        ),
{
    proof {
        reveal_strlit("Result[");
        reveal_strlit("ok");
        reveal_strlit("err");
        reveal_strlit("] containing <");
        reveal_strlit(">");
    }
    let mut out = String::from_str("Result[");
    if ok_variant {
        out.append("ok");
    } else {
        out.append("err");
    }
    out.append("] containing <");
    let piece = value.render();
    out.append(piece.as_str());
    out.push('>');
    proof {
        assert(out@ =~= detail_text(
            if ok_variant {
                "ok"@
            } else {
                "err"@
            },
            value.rendering(),
        ));
    }
    out
}

fn wrapper_failure<T: Describe>(expected_ok: bool, inner: &T) -> (f: AssertionFailure)
    ensures
        expected_ok ==> f.rendered() == two_part_format(
            "result[ok]"@,
            err_wrapper_text(inner.rendering()),
        ),
        !expected_ok ==> f.rendered() == two_part_format(
            "result[error]"@,
            ok_wrapper_text(inner.rendering()),
        ),
{
    proof {
        reveal_strlit("result[ok]");
        reveal_strlit("result[error]");
        reveal_strlit("result[ok]<");
        reveal_strlit("result[error]<");
        reveal_strlit(">");
    }
    let e = if expected_ok {
        String::from_str("result[ok]")
    } else {
        String::from_str("result[error]")
    };
    let mut a = if expected_ok {
        String::from_str("result[error]<")
    } else {
        String::from_str("result[ok]<")
    };
    let piece = inner.render();
    a.append(piece.as_str());
    a.push('>');
    proof {
        if expected_ok {
            assert(a@ =~= err_wrapper_text(inner.rendering()));
        } else {
            assert(a@ =~= ok_wrapper_text(inner.rendering()));
        }
    }
    AssertionFailure::new().with_expected(e).with_actual(a)
}

impl<'s, T: Describe, E: Describe> ResultAssertions<'s, T, E> for Subject<'s, Result<T, E>> {
    open spec fn subject_result(&self) -> Result<T, E> {
        *self.value
    }

    open spec fn subject_description(&self) -> Option<String> {
        self.description
    }

    fn is_ok(&self) -> (r: Result<Subject<'s, T>, AssertionFailure>) {
        match self.value {
            Ok(val) => Ok(self.narrowed(val)),
            Err(err) => Err(wrapper_failure(true, err)),
        }
    }

    fn is_err(&self) -> (r: Result<Subject<'s, E>, AssertionFailure>) {
        match self.value {
            Err(val) => Ok(self.narrowed(val)),
            Ok(val) => Err(wrapper_failure(false, val)),
        }
    }
}

impl<T: Describe, E: Describe> ContainingResultAssertions<T, E> for Subject<'_, Result<T, E>> {
    open spec fn subject_result(&self) -> Result<T, E> {
        *self.value
    }

    fn is_ok_containing(&self, expected_value: &T) -> (r: Result<(), AssertionFailure>) {
        match self.value {
            Ok(val) => {
                if val.eq_item(expected_value) {
                    Ok(())
                } else {
                    let e = build_detail_message(true, expected_value);
                    let a = build_detail_message(true, val);
                    Err(AssertionFailure::new().with_expected(e).with_actual(a))
                }
            },
            Err(err) => {
                let e = build_detail_message(true, expected_value);
                let a = build_detail_message(false, err);
                Err(AssertionFailure::new().with_expected(e).with_actual(a))
            },
        }
    }

    fn is_err_containing(&self, expected_value: &E) -> (r: Result<(), AssertionFailure>) {
        match self.value {
            Err(err) => {
                if err.eq_item(expected_value) {
                    Ok(())
                } else {
                    let e = build_detail_message(false, expected_value);
                    let a = build_detail_message(false, err);
                    Err(AssertionFailure::new().with_expected(e).with_actual(a))
                }
            },
            Ok(val) => {
                let e = build_detail_message(false, expected_value);
                let a = build_detail_message(true, val);
                Err(AssertionFailure::new().with_expected(e).with_actual(a))
            },
        }
    }
}

} // verus!
