use std::collections::HashSet;

use speculoos::hash_sets::HashSetAssertions;
use speculoos::subject::assert_that;

#[test]
fn should_not_panic_if_hash_set_length_matches_expected() {
    let mut test_map = HashSet::new();
    test_map.insert(1i64);
    test_map.insert(2);

    assert!(assert_that(&test_map).has_length(2).is_ok());
}

#[test]
fn should_panic_if_hash_set_length_does_not_match_expected() {
    let mut test_map = HashSet::new();
    test_map.insert(1i64);
    test_map.insert(2);

    let failure = assert_that(&test_map).has_length(1).unwrap_err();
    assert_eq!(failure.message(), "\n\texpected: HashSet to have length <1>\n\t but was: <2>");
}

#[test]
fn should_not_panic_if_hash_set_was_expected_to_be_empty_and_is() {
    let test_map: HashSet<u8> = HashSet::new();
    assert!(assert_that(&test_map).is_empty().is_ok());
}

#[test]
fn should_not_panic_if_hash_set_was_expected_to_not_be_empty_and_is_not() {
    let mut test_map: HashSet<u8> = HashSet::new();
    test_map.insert(1);
    assert!(assert_that(&test_map).is_not_empty().is_ok());
}

#[test]
fn should_panic_if_hash_set_was_expected_to_not_be_empty_and_is() {
    let mut test_map = HashSet::new();
    test_map.insert(1i64);

    let failure = assert_that(&test_map).is_empty().unwrap_err();
    assert_eq!(
        failure.message(),
        "\n\texpected: an empty HashSet\n\t but was: a HashSet with length <1>"
    );
}

#[test]
fn should_panic_if_hash_set_was_expected_to_be_empty_and_is_not() {
    let test_map: HashSet<u8> = HashSet::new();
    let failure = assert_that(&test_map).is_not_empty().unwrap_err();
    assert_eq!(
        failure.message(),
        "\n\texpected: an non empty HashSet\n\t but was: a HashSet with length <0>"
    );
}

#[test]
fn contains_should_allow_multiple_borrow_forms() {
    let mut test_map = HashSet::new();
    test_map.insert("hello".to_string());

    assert!(assert_that(&test_map).contains(&"hello".to_string()).is_ok());
    assert!(assert_that(&test_map).contains(&mut "hello".to_string()).is_ok());
    assert!(assert_that(&test_map).contains(&"hello".to_string()).is_ok());
}

#[test]
fn should_not_panic_if_hash_set_contains() {
    let mut test_map = HashSet::new();
    test_map.insert("hello".to_string());

    assert!(assert_that(&test_map).contains(&"hello".to_string()).is_ok());
}

#[test]
// The order in which the elements are listed can change from run to run, so
// only the verdict is checked, not the message.
fn should_not_panic_if_hash_set_does_not_contain() {
    let mut test_map = HashSet::new();
    test_map.insert("hi".to_string());
    test_map.insert("hey".to_string());

    assert!(assert_that(&test_map).contains(&"hello".to_string()).is_err());
}

#[test]
fn does_not_contain_should_allow_multiple_borrow_forms() {
    let mut test_map = HashSet::new();
    test_map.insert("hello".to_string());

    assert!(assert_that(&test_map).does_not_contain(&"hey".to_string()).is_ok());
    assert!(assert_that(&test_map).does_not_contain(&mut "hey".to_string()).is_ok());
    assert!(assert_that(&test_map).does_not_contain(&"hey".to_string()).is_ok());
}

#[test]
fn should_not_panic_if_hash_set_does_not_contain_when_expected() {
    let mut test_map = HashSet::new();
    test_map.insert("hello".to_string());

    assert!(assert_that(&test_map).does_not_contain(&"hey".to_string()).is_ok());
}

#[test]
fn should_panic_if_hash_set_does_contain_when_not_expected() {
    let mut test_map = HashSet::new();
    test_map.insert("hello".to_string());

    let failure = assert_that(&test_map).does_not_contain(&"hello".to_string()).unwrap_err();
    assert_eq!(
        failure.message(),
        "\n\texpected: iterator to not contain <\"hello\">\n\t but was: <[\"hello\"]>"
    );
}
