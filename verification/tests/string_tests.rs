use std::borrow::Cow;

use speculoos::strings::StrAssertions;
use speculoos::subject::assert_that;

#[test]
fn should_allow_multiple_borrow_forms_for_str() {
    let value = "Hello";
    assert!(assert_that(&value).starts_with("H").is_ok());
    assert!(assert_that(&value).starts_with(Cow::from("H").as_ref()).is_ok());
    assert!(assert_that(&value).starts_with("H".to_string().as_str()).is_ok());

    assert!(assert_that(&value).ends_with("o").is_ok());
    assert!(assert_that(&value).ends_with(Cow::from("o").as_ref()).is_ok());
    assert!(assert_that(&value).ends_with("o".to_string().as_str()).is_ok());

    assert!(assert_that(&value).contains("l").is_ok());
    assert!(assert_that(&value).contains(Cow::from("l").as_ref()).is_ok());
    assert!(assert_that(&value).contains("l".to_string().as_str()).is_ok());
}

#[test]
fn should_not_panic_if_str_starts_with_value() {
    let value = "Hello";
    assert!(assert_that(&value).starts_with("H").is_ok());
}

#[test]
fn should_panic_if_str_does_not_start_with_value() {
    let value = "Hello";
    let failure = assert_that(&value).starts_with("A").unwrap_err();
    assert_eq!(
        failure.message(),
        "\n\texpected: string starting with <\"A\">\n\t but was: <\"Hello\">"
    );
}

#[test]
fn should_not_panic_if_str_ends_with_value() {
    let value = "Hello";
    assert!(assert_that(&value).ends_with("o").is_ok());
}

#[test]
fn should_panic_if_str_does_not_end_with_value() {
    let value = "Hello";
    let failure = assert_that(&value).ends_with("A").unwrap_err();
    assert_eq!(
        failure.message(),
        "\n\texpected: string ending with <\"A\">\n\t but was: <\"Hello\">"
    );
}

#[test]
fn should_not_panic_if_str_contains_value() {
    let value = "Hello";
    assert!(assert_that(&value).contains("l").is_ok());
}

#[test]
fn should_not_panic_if_str_does_not_contain_value() {
    let value = "Hello";
    assert!(assert_that(&value).does_not_contain("x").is_ok());
}

#[test]
fn should_panic_if_str_contains_value() {
    let value = "Hello";
    let failure = assert_that(&value).does_not_contain("l").unwrap_err();
    assert_eq!(
        failure.message(),
        "\n\texpected: string not containing <\"l\">\n\t but was: <\"Hello\">"
    );
}

#[test]
fn should_panic_if_str_does_not_contain_value() {
    let value = "Hello";
    let failure = assert_that(&value).contains("A").unwrap_err();
    assert_eq!(
        failure.message(),
        "\n\texpected: string containing <\"A\">\n\t but was: <\"Hello\">"
    );
}

#[test]
fn should_not_panic_if_str_is_empty() {
    let value = "";
    assert!(assert_that(&value).is_empty().is_ok());
}

#[test]
fn should_panic_if_str_is_not_empty() {
    let value = "Hello";
    let failure = assert_that(&value).is_empty().unwrap_err();
    assert_eq!(failure.message(), "\n\texpected: an empty string\n\t but was: <\"Hello\">");
}

#[test]
fn should_allow_multiple_borrow_forms_for_string() {
    let value = "Hello".to_owned();
    assert!(assert_that(&value).starts_with("H").is_ok());
    assert!(assert_that(&value).starts_with(Cow::from("H").as_ref()).is_ok());
    assert!(assert_that(&value).starts_with("H".to_string().as_str()).is_ok());

    assert!(assert_that(&value).ends_with("o").is_ok());
    assert!(assert_that(&value).ends_with(Cow::from("o").as_ref()).is_ok());
    assert!(assert_that(&value).ends_with("o".to_string().as_str()).is_ok());

    assert!(assert_that(&value).contains("l").is_ok());
    assert!(assert_that(&value).contains(Cow::from("l").as_ref()).is_ok());
    assert!(assert_that(&value).contains("l".to_string().as_str()).is_ok());
}

#[test]
fn should_not_panic_if_string_starts_with_value() {
    let value = "Hello".to_owned();
    assert!(assert_that(&value).starts_with("H").is_ok());
}

#[test]
fn should_panic_if_string_does_not_start_with_value() {
    let value = "Hello".to_owned();
    let failure = assert_that(&value).starts_with("A").unwrap_err();
    assert_eq!(
        failure.message(),
        "\n\texpected: string starting with <\"A\">\n\t but was: <\"Hello\">"
    );
}

#[test]
fn should_not_panic_if_string_ends_with_value() {
    let value = "Hello".to_owned();
    assert!(assert_that(&value).ends_with("o").is_ok());
}

#[test]
fn should_panic_if_string_does_not_end_with_value() {
    let value = "Hello".to_owned();
    let failure = assert_that(&value).ends_with("A").unwrap_err();
    assert_eq!(
        failure.message(),
        "\n\texpected: string ending with <\"A\">\n\t but was: <\"Hello\">"
    );
}

#[test]
fn should_not_panic_if_string_contains_value() {
    let value = "Hello".to_owned();
    assert!(assert_that(&value).contains("l").is_ok());
}

#[test]
fn should_panic_if_string_does_not_contain_value() {
    let value = "Hello".to_owned();
    let failure = assert_that(&value).contains("A").unwrap_err();
    assert_eq!(
        failure.message(),
        "\n\texpected: string containing <\"A\">\n\t but was: <\"Hello\">"
    );
}

#[test]
fn should_not_panic_if_string_is_empty() {
    let value = "".to_owned();
    assert!(assert_that(&value).is_empty().is_ok());
}

#[test]
fn should_panic_if_string_is_not_empty() {
    let value = "Hello".to_owned();
    let failure = assert_that(&value).is_empty().unwrap_err();
    assert_eq!(failure.message(), "\n\texpected: an empty string\n\t but was: <\"Hello\">");
}
