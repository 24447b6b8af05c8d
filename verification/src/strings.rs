//! Assertions on string subjects: prefix, suffix, substring and emptiness.

use vstd::prelude::*;
use vstd::string::{StrSliceExecFns, StringExecFns};

use crate::describe::{angled, push_quoted, quoted};
use crate::failure::{two_part_format, AssertionFailure};
use crate::subject::Subject;

verus! {

/// `p` is the first `p.len()` characters of `s`.
pub open spec fn is_prefix(p: Seq<char>, s: Seq<char>) -> bool {
    p.len() <= s.len() && s.subrange(0, p.len() as int) == p
}

/// `p` is the last `p.len()` characters of `s`.
pub open spec fn is_suffix(p: Seq<char>, s: Seq<char>) -> bool {
    p.len() <= s.len() && s.subrange(s.len() - p.len(), s.len() as int) == p
}

/// `p` occurs contiguously somewhere in `s`.
pub open spec fn is_substring(p: Seq<char>, s: Seq<char>) -> bool {
    exists|i: int| 0 <= i <= s.len() - p.len() && #[trigger] s.subrange(i, i + p.len()) == p
}

/// True when the characters of `s` starting at `at` spell out `p`.
fn matches_at(s: &str, s_len: usize, p: &str, p_len: usize, at: usize) -> (r: bool)
    requires
        s_len == s@.len(),
        p_len == p@.len(),
        at + p_len <= s_len,
    ensures
        r == (s@.subrange(at as int, at + p@.len()) == p@),
{
    let mut j: usize = 0;
    while j < p_len
        invariant
            0 <= j <= p_len,
            s_len == s@.len(),
            p_len == p@.len(),
            at + p_len <= s_len,
            forall|t: int| 0 <= t < j ==> s@[at + t] == p@[t],
        decreases p_len - j,
    {
        if s.get_char(at + j) != p.get_char(j) {
            assert(s@.subrange(at as int, at + p@.len())[j as int] != p@[j as int]);
            return false;
        }
        j += 1;
    }
    assert(s@.subrange(at as int, at + p@.len()) =~= p@);
    true
}

/// Decides [`is_prefix`] by direct character comparison.
pub fn str_starts_with(s: &str, p: &str) -> (r: bool)
    ensures
        r == is_prefix(p@, s@),
{
    let s_len = s.unicode_len();
    let p_len = p.unicode_len();
    if p_len > s_len {
        return false;
    }
    matches_at(s, s_len, p, p_len, 0)
}

/// Decides [`is_suffix`] by direct character comparison.
pub fn str_ends_with(s: &str, p: &str) -> (r: bool)
    ensures
        r == is_suffix(p@, s@),
{
    let s_len = s.unicode_len();
    let p_len = p.unicode_len();
    if p_len > s_len {
        return false;
    }
    matches_at(s, s_len, p, p_len, s_len - p_len)
}

/// Decides [`is_substring`] by scanning every start position.
pub fn str_contains_str(s: &str, p: &str) -> (r: bool)
    ensures
        r == is_substring(p@, s@),
{
    let s_len = s.unicode_len();
    let p_len = p.unicode_len();
    if p_len > s_len {
        assert(!is_substring(p@, s@));
        return false;
    }
    if p_len == 0 {
        assert(s@.subrange(0, 0 + p@.len() as int) =~= p@);
        assert(is_substring(p@, s@));
        return true;
    }
    let mut i: usize = 0;
    while i <= s_len - p_len
        invariant
            0 <= i <= s_len - p_len + 1,
            0 < p_len <= s_len,
            s_len == s@.len(),
            p_len == p@.len(),
            forall|t: int| 0 <= t < i ==> #[trigger] s@.subrange(t, t + p@.len()) != p@,
        decreases s_len - p_len + 1 - i,
    {
        if matches_at(s, s_len, p, p_len, i) {
            assert(is_substring(p@, s@));
            return true;
        }
        i += 1;
    }
    assert(!is_substring(p@, s@));
    false
}

/// The expected-side text of a failed prefix check.
pub open spec fn starts_with_text(p: Seq<char>) -> Seq<char> {
    "string starting with <"@ + quoted(p) + ">"@
}

/// The expected-side text of a failed suffix check.
pub open spec fn ends_with_text(p: Seq<char>) -> Seq<char> {
    "string ending with <"@ + quoted(p) + ">"@
}

/// The expected-side text of a failed substring check.
pub open spec fn contains_text(p: Seq<char>) -> Seq<char> {
    "string containing <"@ + quoted(p) + ">"@
}

/// The expected-side text of a failed substring-absence check.
pub open spec fn not_contains_text(p: Seq<char>) -> Seq<char> {
    "string not containing <"@ + quoted(p) + ">"@
}

/// Assertions available on a string subject.
pub trait StrAssertions {
    /// The characters of the string under test.
    spec fn subject_str(&self) -> Seq<char>;

    /// Passes exactly when the subject starts with the expected text.
    fn starts_with(&self, expected: &str) -> (r: Result<(), AssertionFailure>)
        ensures
            r.is_ok() <==> is_prefix(expected@, self.subject_str()),
            r matches Err(f) ==> f.rendered() == two_part_format(
                starts_with_text(expected@),
                angled(quoted(self.subject_str())),
            ),
    ;

    /// Passes exactly when the subject ends with the expected text.
    fn ends_with(&self, expected: &str) -> (r: Result<(), AssertionFailure>)
        ensures
            r.is_ok() <==> is_suffix(expected@, self.subject_str()),
            r matches Err(f) ==> f.rendered() == two_part_format(
                ends_with_text(expected@),
                angled(quoted(self.subject_str())),
            ),
    ;

    /// Passes exactly when the subject contains the expected text.
    fn contains(&self, expected: &str) -> (r: Result<(), AssertionFailure>)
        ensures
            r.is_ok() <==> is_substring(expected@, self.subject_str()),
            r matches Err(f) ==> f.rendered() == two_part_format(
                contains_text(expected@),
                angled(quoted(self.subject_str())),
            ),
    ;

    /// The exact negation of `contains`.
    fn does_not_contain(&self, expected: &str) -> (r: Result<(), AssertionFailure>)
        ensures
            r.is_ok() <==> !is_substring(expected@, self.subject_str()),
            r matches Err(f) ==> f.rendered() == two_part_format(
                not_contains_text(expected@),
                angled(quoted(self.subject_str())),
            ),
    ;

    /// Passes exactly when the subject is empty.
    fn is_empty(&self) -> (r: Result<(), AssertionFailure>)
        ensures
            r.is_ok() <==> self.subject_str().len() == 0,
            r matches Err(f) ==> f.rendered() == two_part_format(
                "an empty string"@,
                angled(quoted(self.subject_str())),
            ),
    ;
}

/// Builds the two-part failure of every string matcher: the prepared expected
/// text against the quoted subject.
fn str_failure(expected_text: String, subject: &str) -> (f: AssertionFailure)
    ensures
        f.rendered() == two_part_format(expected_text@, angled(quoted(subject@))),
{
    let mut a = String::new();
    a.push('<');
    push_quoted(&mut a, subject);
    a.push('>');
    assert(a@ =~= angled(quoted(subject@)));
    AssertionFailure::new().with_expected(expected_text).with_actual(a)
}

fn quoted_in_brackets(prefix: &str, p: &str) -> (r: String)
    ensures
        r@ == prefix@ + quoted(p@) + ">"@,
{
    let mut e = String::from_str(prefix);
    push_quoted(&mut e, p);
    e.push('>');
    proof {
        reveal_strlit(">");
        assert(e@ =~= prefix@ + quoted(p@) + ">"@);
    }
    e
}

pub fn starts_with(subject: &str, expected: &str) -> (r: Result<(), AssertionFailure>)
    ensures
        r.is_ok() <==> is_prefix(expected@, subject@),
        r matches Err(f) ==> f.rendered() == two_part_format(
            starts_with_text(expected@),
            angled(quoted(subject@)),
        ),
{
    if str_starts_with(subject, expected) {
        Ok(())
    } else {
        proof {
            reveal_strlit("string starting with <");
        }
        let e = quoted_in_brackets("string starting with <", expected);
        Err(str_failure(e, subject))
    }
}

pub fn ends_with(subject: &str, expected: &str) -> (r: Result<(), AssertionFailure>)
    ensures
        r.is_ok() <==> is_suffix(expected@, subject@),
        r matches Err(f) ==> f.rendered() == two_part_format(
            ends_with_text(expected@),
            angled(quoted(subject@)),
        ),
{
    if str_ends_with(subject, expected) {
        Ok(())
    } else {
        proof {
            reveal_strlit("string ending with <");
        }
        let e = quoted_in_brackets("string ending with <", expected);
        Err(str_failure(e, subject))
    }
}

pub fn contains(subject: &str, expected: &str) -> (r: Result<(), AssertionFailure>)
    ensures
        r.is_ok() <==> is_substring(expected@, subject@),
        r matches Err(f) ==> f.rendered() == two_part_format(
            contains_text(expected@),
            angled(quoted(subject@)),
        ),
{
    if str_contains_str(subject, expected) {
        Ok(())
    } else {
        proof {
            reveal_strlit("string containing <");
        }
        let e = quoted_in_brackets("string containing <", expected);
        Err(str_failure(e, subject))
    }
}

pub fn does_not_contain(subject: &str, expected: &str) -> (r: Result<(), AssertionFailure>)
    ensures
        r.is_ok() <==> !is_substring(expected@, subject@),
        r matches Err(f) ==> f.rendered() == two_part_format(
            not_contains_text(expected@),
            angled(quoted(subject@)),
        ),
{
    if str_contains_str(subject, expected) {
        proof {
            reveal_strlit("string not containing <");
        }
        let e = quoted_in_brackets("string not containing <", expected);
        Err(str_failure(e, subject))
    } else {
        Ok(())
    }
}

pub fn is_empty(subject: &str) -> (r: Result<(), AssertionFailure>)
    ensures
        r.is_ok() <==> subject@.len() == 0,
        r matches Err(f) ==> f.rendered() == two_part_format(
            "an empty string"@,
            angled(quoted(subject@)),
        ),
{
    if subject.unicode_len() == 0 {
        Ok(())
    } else {
        proof {
            reveal_strlit("an empty string");
        }
        Err(str_failure(String::from_str("an empty string"), subject))
    }
}

impl<'s> StrAssertions for Subject<'s, String> {
    open spec fn subject_str(&self) -> Seq<char> {
        self.value@
    }

    fn starts_with(&self, expected: &str) -> (r: Result<(), AssertionFailure>) {
        starts_with(self.value.as_str(), expected)
    }

    fn ends_with(&self, expected: &str) -> (r: Result<(), AssertionFailure>) {
        ends_with(self.value.as_str(), expected)
    }

    fn contains(&self, expected: &str) -> (r: Result<(), AssertionFailure>) {
        contains(self.value.as_str(), expected)
    }

    fn does_not_contain(&self, expected: &str) -> (r: Result<(), AssertionFailure>) {
        does_not_contain(self.value.as_str(), expected)
    }

    fn is_empty(&self) -> (r: Result<(), AssertionFailure>) {
        is_empty(self.value.as_str())
    }
}

impl<'s, 'v> StrAssertions for Subject<'s, &'v str> {
    open spec fn subject_str(&self) -> Seq<char> {
        (*self.value)@
    }

    fn starts_with(&self, expected: &str) -> (r: Result<(), AssertionFailure>) {
        starts_with(*self.value, expected)
    }

    fn ends_with(&self, expected: &str) -> (r: Result<(), AssertionFailure>) {
        ends_with(*self.value, expected)
    }

    fn contains(&self, expected: &str) -> (r: Result<(), AssertionFailure>) {
        contains(*self.value, expected)
    }

    fn does_not_contain(&self, expected: &str) -> (r: Result<(), AssertionFailure>) {
        does_not_contain(*self.value, expected)
    }

    fn is_empty(&self) -> (r: Result<(), AssertionFailure>) {
        is_empty(*self.value)
    }
}

} // verus!
