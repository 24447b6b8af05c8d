//! Assertions on filesystem-path subjects. The library never touches the
//! filesystem itself: a path subject carries the probed facts (whether the
//! path resolves, and to what) and the extracted file name as plain values,
//! and every decision and diagnostic is made here from those facts alone.

use vstd::prelude::*;
use vstd::string::StringExecFns;

use crate::describe::{push_quoted, quoted};
use crate::failure::{two_part_format, AssertionFailure};
use crate::subject::Subject;
use crate::text::str_eq;

verus! {

/// The file name of a path, as the surrounding platform reported it.
#[derive(Debug)]
pub enum FileName {
    /// The path has no file name (it ends in a parent reference or is a root).
    Missing,
    /// The path has a file name, but it is not valid UTF-8.
    Invalid,
    /// The file name, decoded.
    Named(String),
}

/// A path under test: the rendered path and the probed facts about it.
#[derive(Debug)]
pub struct PathSubject {
    /// The textual form of the path.
    pub path: String,
    /// Whether the path resolves to anything.
    pub found: bool,
    /// Whether the path resolves to a regular file.
    pub file: bool,
    /// Whether the path resolves to a directory.
    pub directory: bool,
    /// The path's file name component.
    pub file_name: FileName,
}

impl PathSubject {
    /// Bundles the probed facts about a path into a subject.
    pub fn new(path: String, found: bool, file: bool, directory: bool, file_name: FileName) -> (s:
        Self)
        ensures
            s.path == path,
            s.found == found,
            s.file == file,
            s.directory == directory,
            s.file_name == file_name,
    {
        PathSubject { path, found, file, directory, file_name }
    }
}

/// The expected-side text of an existence or kind mismatch: the quoted path
/// and what was expected of it.
pub open spec fn path_expectation_text(path: Seq<char>, tail: Seq<char>) -> Seq<char> {
    "Path of <"@ + quoted(path) + ">"@ + tail
}

/// The expected-side text of a file-name mismatch.
pub open spec fn file_name_expected_text(name: Seq<char>) -> Seq<char> {
    "Path with file name of <"@ + name + ">"@
}

/// The actual-side text shown when the path has no file name.
pub open spec fn no_file_name_text(path: Seq<char>) -> Seq<char> {
    "a non-resolvable path <"@ + quoted(path) + ">"@
}

/// Assertions available on a path subject.
pub trait PathAssertions {
    /// The textual form of the path under test.
    spec fn subject_path(&self) -> Seq<char>;

    /// Whether the path resolves.
    spec fn subject_found(&self) -> bool;

    /// Whether the path resolves to a regular file.
    spec fn subject_file(&self) -> bool;

    /// Whether the path resolves to a directory.
    spec fn subject_directory(&self) -> bool;

    /// The path's file name component.
    spec fn subject_file_name(&self) -> FileName;

    /// Passes exactly when the path resolves.
    fn does_exist(&self) -> (r: Result<(), AssertionFailure>)
        ensures
            r.is_ok() <==> self.subject_found(),
            r matches Err(f) ==> f.rendered() == two_part_format(
                path_expectation_text(self.subject_path(), " to exist"@),
                "a non-existent Path"@,
            ),
    ;

    /// The exact negation of `does_exist`.
    fn does_not_exist(&self) -> (r: Result<(), AssertionFailure>)
        ensures
            r.is_ok() <==> !self.subject_found(),
            r matches Err(f) ==> f.rendered() == two_part_format(
                path_expectation_text(self.subject_path(), " to not exist"@),
                "a resolvable Path"@,
            ),
    ;

    /// Passes exactly when the path resolves to a regular file.
    fn is_a_file(&self) -> (r: Result<(), AssertionFailure>)
        ensures
            r.is_ok() <==> self.subject_file(),
            r matches Err(f) ==> f.rendered() == two_part_format(
                path_expectation_text(self.subject_path(), " to be a file"@),
                "not a resolvable file"@,
            ),
    ;

    /// Passes exactly when the path resolves to a directory.
    fn is_a_directory(&self) -> (r: Result<(), AssertionFailure>)
        ensures
            r.is_ok() <==> self.subject_directory(),
            r matches Err(f) ==> f.rendered() == two_part_format(
                path_expectation_text(self.subject_path(), " to be a directory"@),
                "not a resolvable directory"@,
            ),
    ;

    /// Passes exactly when the path has a decodable file name equal to the
    /// expected one; a failure says whether the name differed, was missing,
    /// or could not be decoded.
    fn has_file_name(&self, expected_file_name: &str) -> (r: Result<(), AssertionFailure>)
        ensures
            r.is_ok() <==> (self.subject_file_name() matches FileName::Named(n) && n@
                == expected_file_name@),
            r matches Err(f) ==> f.rendered() == two_part_format(
                file_name_expected_text(expected_file_name@),
                match self.subject_file_name() {
                    FileName::Missing => no_file_name_text(self.subject_path()),
                    FileName::Invalid => "an invalid UTF-8 file name"@,
                    FileName::Named(n) => "<"@ + n@ + ">"@,
                },
            ),
    ;
}

fn path_expectation_failure(path: &str, tail: &str, actual: String) -> (f: AssertionFailure)
    ensures
        f.rendered() == two_part_format(path_expectation_text(path@, tail@), actual@),
{
    proof {
        reveal_strlit("Path of <");
        reveal_strlit(">");
    }
    let mut e = String::from_str("Path of <");
    push_quoted(&mut e, path);
    e.append(">");
    e.append(tail);
    assert(e@ =~= path_expectation_text(path@, tail@));
    AssertionFailure::new().with_expected(e).with_actual(actual)
}

/// The expected-side text of a file-name check, as a string.
pub fn build_file_name_message(file_name: &str) -> (r: String)
    ensures
        r@ == file_name_expected_text(file_name@),
{
    proof {
        reveal_strlit("Path with file name of <");
        reveal_strlit(">");
    }
    let mut e = String::from_str("Path with file name of <");
    e.append(file_name);
    e.append(">");
    assert(e@ =~= file_name_expected_text(file_name@));
    e
}

/// Builds the failure every file-name mismatch reports, from the expected name
/// and the already-rendered actual side.
pub fn fail_from_file_name(expected: &str, actual: String) -> (f: AssertionFailure)
    ensures
        f.rendered() == two_part_format(file_name_expected_text(expected@), actual@),
{
    let e = build_file_name_message(expected);
    AssertionFailure::new().with_expected(e).with_actual(actual)
}

/// Passes exactly when the probed path resolves.
pub fn does_exist(subject: &PathSubject) -> (r: Result<(), AssertionFailure>)
    ensures
        r.is_ok() <==> subject.found,
        r matches Err(f) ==> f.rendered() == two_part_format(
            path_expectation_text(subject.path@, " to exist"@),
            "a non-existent Path"@,
        ),
{
    if subject.found {
        Ok(())
    } else {
        proof {
            reveal_strlit(" to exist");
            reveal_strlit("a non-existent Path");
        }
        Err(
            path_expectation_failure(
                subject.path.as_str(),
                " to exist",
                String::from_str("a non-existent Path"),
            ),
        )
    }
}

/// The exact negation of [`does_exist`].
pub fn does_not_exist(subject: &PathSubject) -> (r: Result<(), AssertionFailure>)
    ensures
        r.is_ok() <==> !subject.found,
        r matches Err(f) ==> f.rendered() == two_part_format(
            path_expectation_text(subject.path@, " to not exist"@),
            "a resolvable Path"@,
        ),
{
    if !subject.found {
        Ok(())
    } else {
        proof {
            reveal_strlit(" to not exist");
            reveal_strlit("a resolvable Path");
        }
        Err(
            path_expectation_failure(
                subject.path.as_str(),
                " to not exist",
                String::from_str("a resolvable Path"),
            ),
        )
    }
}

/// Passes exactly when the probed path resolves to a regular file.
pub fn is_a_file(subject: &PathSubject) -> (r: Result<(), AssertionFailure>)
    ensures
        r.is_ok() <==> subject.file,
        r matches Err(f) ==> f.rendered() == two_part_format(
            path_expectation_text(subject.path@, " to be a file"@),
            "not a resolvable file"@,
        ),
{
    if subject.file {
        Ok(())
    } else {
        proof {
            reveal_strlit(" to be a file");
            reveal_strlit("not a resolvable file");
        }
        Err(
            path_expectation_failure(
                subject.path.as_str(),
                " to be a file",
                String::from_str("not a resolvable file"),
            ),
        )
    }
}

/// Passes exactly when the probed path resolves to a directory.
pub fn is_a_directory(subject: &PathSubject) -> (r: Result<(), AssertionFailure>)
    ensures
        r.is_ok() <==> subject.directory,
        r matches Err(f) ==> f.rendered() == two_part_format(
            path_expectation_text(subject.path@, " to be a directory"@),
            "not a resolvable directory"@,
        ),
{
    if subject.directory {
        Ok(())
    } else {
        proof {
            reveal_strlit(" to be a directory");
            reveal_strlit("not a resolvable directory");
        }
        Err(
            path_expectation_failure(
                subject.path.as_str(),
                " to be a directory",
                String::from_str("not a resolvable directory"),
            ),
        )
    }
}

/// Passes exactly when the path has a decodable file name equal to the
/// expected one.
pub fn has_file_name(subject: &PathSubject, expected_file_name: &str) -> (r: Result<
    (),
    AssertionFailure,
>)
    ensures
        r.is_ok() <==> (subject.file_name matches FileName::Named(n) && n@
            == expected_file_name@),
        r matches Err(f) ==> f.rendered() == two_part_format(
            file_name_expected_text(expected_file_name@),
            match subject.file_name {
                FileName::Missing => no_file_name_text(subject.path@),
                FileName::Invalid => "an invalid UTF-8 file name"@,
                FileName::Named(n) => "<"@ + n@ + ">"@,
            },
        ),
{
    match &subject.file_name {
        FileName::Named(name) => {
            if str_eq(name.as_str(), expected_file_name) {
                Ok(())
            } else {
                proof {
                    reveal_strlit("<");
                    reveal_strlit(">");
                }
                let mut a = String::from_str("<");
                a.append(name.as_str());
                a.append(">");
                assert(a@ =~= "<"@ + name@ + ">"@);
                Err(fail_from_file_name(expected_file_name, a))
            }
        },
        FileName::Invalid => {
            proof {
                reveal_strlit("an invalid UTF-8 file name");
            }
            Err(
                fail_from_file_name(
                    expected_file_name,
                    String::from_str("an invalid UTF-8 file name"),
                ),
            )
        },
        FileName::Missing => {
            proof {
                reveal_strlit("a non-resolvable path <");
                reveal_strlit(">");
            }
            let mut a = String::from_str("a non-resolvable path <");
            push_quoted(&mut a, subject.path.as_str());
            a.append(">");
            assert(a@ =~= no_file_name_text(subject.path@));
            Err(fail_from_file_name(expected_file_name, a))
        },
    }
}

impl<'s> PathAssertions for Subject<'s, PathSubject> {
    open spec fn subject_path(&self) -> Seq<char> {
        self.value.path@
    }

    open spec fn subject_found(&self) -> bool {
        self.value.found
    }

    open spec fn subject_file(&self) -> bool {
        self.value.file
    }

    open spec fn subject_directory(&self) -> bool {
        self.value.directory
    }

    open spec fn subject_file_name(&self) -> FileName {
        self.value.file_name
    }

    fn does_exist(&self) -> (r: Result<(), AssertionFailure>) {
        does_exist(self.value)
    }

    fn does_not_exist(&self) -> (r: Result<(), AssertionFailure>) {
        does_not_exist(self.value)
    }

    fn is_a_file(&self) -> (r: Result<(), AssertionFailure>) {
        is_a_file(self.value)
    }

    fn is_a_directory(&self) -> (r: Result<(), AssertionFailure>) {
        is_a_directory(self.value)
    }

    fn has_file_name(&self, expected_file_name: &str) -> (r: Result<(), AssertionFailure>) {
        has_file_name(self.value, expected_file_name)
    }
}

} // verus!
