use speculoos::describe::Describe;
use speculoos::results::{ContainingResultAssertions, ResultAssertions};
use speculoos::subject::assert_that;

#[test]
fn should_not_panic_if_result_is_expected_to_be_ok_and_is() {
    let result: Result<String, String> = Ok("Hello".to_string());
    assert!(assert_that(&result).is_ok().is_ok());
}

#[test]
fn should_panic_if_result_is_expected_to_be_ok_and_is_not() {
    let result: Result<String, String> = Err("Oh no".to_string());
    let failure = assert_that(&result).is_ok().unwrap_err();
    assert_eq!(
        failure.message(),
        "\n\texpected: result[ok]\n\t but was: result[error]<\"Oh no\">"
    );
}

#[test]
fn should_return_unwrapped_value_if_subject_is_ok() {
    let result: Result<String, String> = Ok("Hello".to_string());
    let narrowed = assert_that(&result).is_ok().unwrap();
    assert!(narrowed.is_equal_to(&"Hello".to_string()).is_ok());
}

#[test]
fn should_not_panic_if_result_is_expected_to_be_error_and_is() {
    let result: Result<String, String> = Err("Oh no".to_string());
    assert!(assert_that(&result).is_err().is_ok());
}

#[test]
fn should_panic_if_result_is_expected_to_be_error_and_is_not() {
    let result: Result<String, String> = Ok("Hello".to_string());
    let failure = assert_that(&result).is_err().unwrap_err();
    assert_eq!(
        failure.message(),
        "\n\texpected: result[error]\n\t but was: result[ok]<\"Hello\">"
    );
}

#[test]
fn should_return_unwrapped_value_if_subject_is_err() {
    let result: Result<String, String> = Err("Hello".to_string());
    let narrowed = assert_that(&result).is_err().unwrap();
    assert!(narrowed.is_equal_to(&"Hello".to_string()).is_ok());
}

#[test]
fn is_ok_containing_should_allow_multiple_borrow_forms() {
    let result: Result<String, String> = Ok("Hello".to_string());
    assert!(assert_that(&result).is_ok_containing(&"Hello".to_string()).is_ok());
    assert!(assert_that(&result).is_ok_containing(&mut "Hello".to_string()).is_ok());
    assert!(assert_that(&result).is_ok_containing(&"Hello".to_string()).is_ok());
}

#[test]
fn should_not_panic_if_result_is_ok_with_expected_value() {
    let result: Result<String, String> = Ok("Hello".to_string());
    assert!(assert_that(&result).is_ok_containing(&"Hello".to_string()).is_ok());
}

#[test]
fn should_not_panic_if_result_is_ok_with_uncomparable_ok() {
    let result: Result<String, Incomparable> = Ok("Hello".to_string());
    assert!(assert_that(&result).is_ok_containing(&"Hello".to_string()).is_ok());
}

#[test]
fn should_panic_if_result_is_ok_without_expected_value() {
    let result: Result<String, String> = Ok("Hello".to_string());
    let failure = assert_that(&result).is_ok_containing(&"Hi".to_string()).unwrap_err();
    assert_eq!(
        failure.message(),
        "\n\texpected: Result[ok] containing <\"Hi\">\n\t but was: Result[ok] containing <\"Hello\">"
    );
}

#[test]
fn should_panic_if_result_is_err_if_ok_with_value_expected() {
    let result: Result<String, String> = Err("Hi".to_string());
    let failure = assert_that(&result).is_ok_containing(&"Hi".to_string()).unwrap_err();
    assert_eq!(
        failure.message(),
        "\n\texpected: Result[ok] containing <\"Hi\">\n\t but was: Result[err] containing <\"Hi\">"
    );
}

#[test]
fn is_error_containing_should_allow_multiple_borrow_forms() {
    let result: Result<String, String> = Err("Oh no".to_string());
    assert!(assert_that(&result).is_err_containing(&"Oh no".to_string()).is_ok());
    assert!(assert_that(&result).is_err_containing(&mut "Oh no".to_string()).is_ok());
    assert!(assert_that(&result).is_err_containing(&"Oh no".to_string()).is_ok());
}

#[test]
fn should_not_panic_if_result_is_err_with_expected_value() {
    let result: Result<String, String> = Err("Oh no".to_string());
    assert!(assert_that(&result).is_err_containing(&"Oh no".to_string()).is_ok());
}

#[test]
fn should_not_panic_if_result_is_err_with_uncomparable_ok() {
    let result: Result<Incomparable, String> = Err("Oh no".to_string());
    assert!(assert_that(&result).is_err_containing(&"Oh no".to_string()).is_ok());
}

#[test]
fn should_panic_if_result_is_err_without_expected_value() {
    let result: Result<String, String> = Err("Whoops".to_string());
    let failure = assert_that(&result).is_err_containing(&"Oh no".to_string()).unwrap_err();
    assert_eq!(
        failure.message(),
        "\n\texpected: Result[err] containing <\"Oh no\">\n\t but was: Result[err] containing <\"Whoops\">"
    );
}

#[test]
fn should_panic_if_result_is_ok_if_err_with_value_expected() {
    let result: Result<String, String> = Ok("Oh no".to_string());
    let failure = assert_that(&result).is_err_containing(&"Oh no".to_string()).unwrap_err();
    assert_eq!(
        failure.message(),
        "\n\texpected: Result[err] containing <\"Oh no\">\n\t but was: Result[ok] containing <\"Oh no\">"
    );
}

struct Incomparable;

impl Describe for Incomparable {
    fn eq_spec(&self, _other: &Self) -> bool {
        unreachable!()
    }

    fn rendering(&self) -> vstd::seq::Seq<char> {
        unreachable!()
    }

    fn eq_item(&self, _other: &Self) -> bool {
        false
    }

    fn render(&self) -> String {
        String::from("Incomparable")
    }
}
