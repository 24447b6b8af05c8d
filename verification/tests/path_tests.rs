// A path subject carries the probed filesystem facts as plain values, so
// these tests state the facts directly: an existing directory, a file named
// Cargo.toml inside it, a missing entry, and a path that ends in a parent
// reference.

use speculoos::paths::{FileName, PathAssertions, PathSubject};
use speculoos::subject::assert_that;

fn project_dir() -> PathSubject {
    PathSubject::new(
        "/projects/demo".to_string(),
        true,
        false,
        true,
        FileName::Named("demo".to_string()),
    )
}

fn manifest_file() -> PathSubject {
    PathSubject::new(
        "/projects/demo/Cargo.toml".to_string(),
        true,
        true,
        false,
        FileName::Named("Cargo.toml".to_string()),
    )
}

fn missing_entry() -> PathSubject {
    PathSubject::new(
        "/projects/demo/does-not-exist".to_string(),
        false,
        false,
        false,
        FileName::Named("does-not-exist".to_string()),
    )
}

fn parent_reference() -> PathSubject {
    PathSubject::new("/projects/demo/..".to_string(), true, false, true, FileName::Missing)
}

#[test]
fn should_accept_any_path_reference() {
    let from_string = project_dir();
    assert!(assert_that(&from_string).does_exist().is_ok());
    let from_buf = PathSubject::new(
        String::from("/projects/demo"),
        true,
        false,
        true,
        FileName::Named(String::from("demo")),
    );
    assert!(assert_that(&from_buf).does_exist().is_ok());
    let mut grown = String::from("/projects");
    grown.push_str("/demo");
    let from_grown = PathSubject::new(
        grown,
        true,
        false,
        true,
        FileName::Named(String::from("demo")),
    );
    assert!(assert_that(&from_grown).does_exist().is_ok());
}

#[test]
pub fn should_not_panic_if_path_exists() {
    let subject = project_dir();
    assert!(assert_that(&subject).does_exist().is_ok());
}

#[test]
pub fn should_panic_if_path_does_not_exist() {
    let subject = missing_entry();
    let failure = assert_that(&subject).does_exist().unwrap_err();
    assert_eq!(
        failure.message(),
        "\n\texpected: Path of <\"/projects/demo/does-not-exist\"> to exist\n\t but was: a non-existent Path"
    );
}

#[test]
pub fn should_not_panic_if_path_represents_a_directory() {
    let subject = project_dir();
    assert!(assert_that(&subject).is_a_directory().is_ok());
}

#[test]
pub fn should_not_panic_if_path_does_not_exist_when_expected() {
    let subject = missing_entry();
    assert!(assert_that(&subject).does_not_exist().is_ok());
}

#[test]
pub fn should_panic_if_path_exists_when_not_expected() {
    let subject = project_dir();
    let failure = assert_that(&subject).does_not_exist().unwrap_err();
    assert_eq!(
        failure.message(),
        "\n\texpected: Path of <\"/projects/demo\"> to not exist\n\t but was: a resolvable Path"
    );
}

#[test]
pub fn should_panic_if_path_does_not_represent_a_directory() {
    let subject = manifest_file();
    let failure = assert_that(&subject).is_a_directory().unwrap_err();
    assert_eq!(
        failure.message(),
        "\n\texpected: Path of <\"/projects/demo/Cargo.toml\"> to be a directory\n\t but was: not a resolvable directory"
    );
}

#[test]
pub fn should_not_panic_if_path_represents_a_file() {
    let subject = manifest_file();
    assert!(assert_that(&subject).is_a_file().is_ok());
}

#[test]
pub fn should_panic_if_path_does_not_represent_a_file() {
    let subject = project_dir();
    let failure = assert_that(&subject).is_a_file().unwrap_err();
    assert_eq!(
        failure.message(),
        "\n\texpected: Path of <\"/projects/demo\"> to be a file\n\t but was: not a resolvable file"
    );
}

#[test]
pub fn has_file_name_should_allow_multiple_borrow_forms_for_path() {
    let subject = manifest_file();
    assert!(assert_that(&subject).has_file_name("Cargo.toml").is_ok());
    assert!(assert_that(&subject).has_file_name("Cargo.toml".to_string().as_str()).is_ok());
    assert!(assert_that(&subject).has_file_name(&"Cargo.toml".to_string()).is_ok());
}

#[test]
pub fn should_not_panic_if_path_has_correct_file_name() {
    let subject = manifest_file();
    assert!(assert_that(&subject).has_file_name("Cargo.toml").is_ok());
}

#[test]
pub fn should_panic_if_path_does_not_have_correct_file_name() {
    let subject = manifest_file();
    let failure = assert_that(&subject).has_file_name("pom.xml").unwrap_err();
    assert_eq!(
        failure.message(),
        "\n\texpected: Path with file name of <pom.xml>\n\t but was: <Cargo.toml>"
    );
}

#[test]
pub fn should_panic_if_path_does_not_have_a_file_name() {
    let subject = parent_reference();
    let failure = assert_that(&subject).has_file_name("pom.xml").unwrap_err();
    assert_eq!(
        failure.message(),
        "\n\texpected: Path with file name of <pom.xml>\n\t but was: a non-resolvable path <\"/projects/demo/..\">"
    );
}

#[test]
pub fn should_not_panic_if_pathbuf_exists() {
    let subject = project_dir();
    assert!(assert_that(&subject).does_exist().is_ok());
}

#[test]
pub fn should_panic_if_pathbuf_does_not_exist() {
    let subject = missing_entry();
    assert!(assert_that(&subject).does_exist().is_err());
}

#[test]
pub fn should_not_panic_if_pathbuf_represents_a_directory() {
    let subject = project_dir();
    assert!(assert_that(&subject).is_a_directory().is_ok());
}

#[test]
pub fn should_not_panic_if_pathbuf_does_not_exist_when_expected() {
    let subject = missing_entry();
    assert!(assert_that(&subject).does_not_exist().is_ok());
}

#[test]
pub fn should_panic_if_pathbuf_exists_when_not_expected() {
    let subject = project_dir();
    assert!(assert_that(&subject).does_not_exist().is_err());
}

#[test]
pub fn should_panic_if_pathbuf_does_not_represent_a_directory() {
    let subject = manifest_file();
    assert!(assert_that(&subject).is_a_directory().is_err());
}

#[test]
pub fn should_not_panic_if_pathbuf_represents_a_file() {
    let subject = manifest_file();
    assert!(assert_that(&subject).is_a_file().is_ok());
}

#[test]
pub fn should_panic_if_pathbuf_does_not_represent_a_file() {
    let subject = project_dir();
    assert!(assert_that(&subject).is_a_file().is_err());
}

#[test]
pub fn has_file_name_should_allow_multiple_borrow_forms_for_pathbuf() {
    let subject = manifest_file();
    assert!(assert_that(&subject).has_file_name("Cargo.toml").is_ok());
    assert!(assert_that(&subject).has_file_name("Cargo.toml".to_string().as_str()).is_ok());
    assert!(assert_that(&subject).has_file_name(&"Cargo.toml".to_string()).is_ok());
}

#[test]
pub fn should_not_panic_if_pathbuf_has_correct_file_name() {
    let subject = manifest_file();
    assert!(assert_that(&subject).has_file_name("Cargo.toml").is_ok());
}

#[test]
pub fn should_panic_if_pathbuf_does_not_have_correct_file_name() {
    let subject = manifest_file();
    assert!(assert_that(&subject).has_file_name("pom.xml").is_err());
}

#[test]
pub fn should_panic_if_pathbuf_does_not_have_a_file_name() {
    let subject = parent_reference();
    assert!(assert_that(&subject).has_file_name("pom.xml").is_err());
}
