use speculoos::describe::Describe;
use speculoos::iter::MappingIterAssertions;
use speculoos::subject::assert_that;

#[test]
fn contains_should_allow_for_multiple_borrow_types_for_intoiter() {
    let test_vec = vec![1i64, 2, 3];
    assert!(assert_that(&test_vec).contains(&2).is_ok());
    assert!(assert_that(&test_vec).contains(&mut 2).is_ok());
    assert!(assert_that(&test_vec).contains(&2).is_ok());
}

#[test]
fn should_not_panic_if_vec_contains_value() {
    let test_vec = vec![1i64, 2, 3];
    assert!(assert_that(&test_vec).contains(&2).is_ok());
}

#[test]
fn should_panic_if_vec_does_not_contain_value() {
    let test_vec = vec![1i64, 2, 3];
    let failure = assert_that(&test_vec).contains(&5).unwrap_err();
    assert_eq!(
        failure.message(),
        "\n\texpected: iterator to contain <5>\n\t but was: <[1, 2, 3]>"
    );
}

#[test]
fn should_not_panic_if_vec_does_not_contain_value_if_expected() {
    let test_vec = vec![1i64, 2, 3];
    assert!(assert_that(&test_vec).does_not_contain(&4).is_ok());
}

#[test]
fn should_panic_if_vec_does_contain_value_and_expected_not_to() {
    let test_vec = vec![1i64, 2, 3];
    let failure = assert_that(&test_vec).does_not_contain(&2).unwrap_err();
    assert_eq!(
        failure.message(),
        "\n\texpected: iterator to not contain <2>\n\t but was: <[1, 2, 3]>"
    );
}

#[test]
fn should_not_panic_if_iterable_contains_value() {
    let mut test_into_iter = Vec::new();
    test_into_iter.push(1i64);
    test_into_iter.push(2);
    test_into_iter.push(3);

    assert!(assert_that(&test_into_iter).contains(&2).is_ok());
}

#[test]
fn should_panic_if_iterable_does_not_contain_value() {
    let mut test_into_iter = Vec::new();
    test_into_iter.push(1i64);
    test_into_iter.push(2);
    test_into_iter.push(3);

    let failure = assert_that(&test_into_iter).contains(&5).unwrap_err();
    assert_eq!(
        failure.message(),
        "\n\texpected: iterator to contain <5>\n\t but was: <[1, 2, 3]>"
    );
}

#[test]
fn should_not_panic_if_iterable_contains_all_expected_values() {
    let mut test_into_iter = Vec::new();
    test_into_iter.push(1i64);
    test_into_iter.push(2);
    test_into_iter.push(3);

    assert!(assert_that(&test_into_iter).contains_all_of(&vec![2i64, 3]).is_ok());
}

#[test]
fn should_panic_if_iterable_does_not_contain_all_expected_values() {
    let mut test_into_iter = Vec::new();
    test_into_iter.push(1i64);
    test_into_iter.push(2);
    test_into_iter.push(3);

    let failure = assert_that(&test_into_iter).contains_all_of(&vec![1i64, 6]).unwrap_err();
    assert_eq!(
        failure.message(),
        "\n\texpected: iterator to contain items <[1, 6]>\n\t but was: <[1, 2, 3]>"
    );
}

#[test]
fn should_not_panic_if_iterator_contains_all_expected_values() {
    let test_vec = vec![1i64, 2, 3];
    assert!(assert_that(&test_vec).contains_all_of(&vec![2i64, 3]).is_ok());
}

#[test]
fn should_panic_if_iterator_does_not_contain_all_expected_values() {
    let test_vec = vec![1i64, 2, 3];
    let failure = assert_that(&test_vec).contains_all_of(&vec![1i64, 6]).unwrap_err();
    assert_eq!(
        failure.message(),
        "\n\texpected: iterator to contain items <[1, 6]>\n\t but was: <[1, 2, 3]>"
    );
}

#[test]
fn should_panic_if_iterator_does_not_contain_all_expected_values_exactly() {
    let test_vec = vec![1i64, 2, 3];
    let failure = assert_that(&test_vec).contains_all_of(&vec![1i64, 1, 3]).unwrap_err();
    assert_eq!(
        failure.message(),
        "\n\texpected: iterator to contain items <[1, 3, 1]>\n\t but was: <[1, 2, 3]>"
    );
}

#[test]
fn should_not_panic_if_iteratable_equals_expected_iterator() {
    let expected_vec = vec![1i64, 2, 3];
    let test_vec = vec![1i64, 2, 3];

    assert!(assert_that(&test_vec).equals_iterator(&expected_vec).is_ok());
}

#[test]
fn should_panic_if_iteratable_does_not_equal_expected_iterator() {
    let expected_vec = vec![1i64, 2, 4];
    let test_vec = vec![1i64, 2, 3];

    let failure = assert_that(&test_vec).equals_iterator(&expected_vec).unwrap_err();
    assert_eq!(
        failure.message(),
        "\n\texpected: Iterator item of <4> (read <[1, 2]>)\n\t but was: Iterator item of <3> (read <[1, 2]>)"
    );
}

#[test]
fn contains_should_allow_for_multiple_borrow_types_for_iterators() {
    let test_vec = vec![1i64, 2, 3];
    assert!(assert_that(&test_vec).contains(&2).is_ok());
    assert!(assert_that(&test_vec).contains(&mut 2).is_ok());
    assert!(assert_that(&test_vec).contains(&2).is_ok());
}

#[test]
fn should_not_panic_if_iterator_contains_value() {
    let test_vec = vec![1i64, 2, 3];
    assert!(assert_that(&test_vec).contains(&2).is_ok());
}

#[test]
fn should_panic_if_iterator_does_not_contain_value() {
    let test_vec = vec![1i64, 2, 3];
    let failure = assert_that(&test_vec).contains(&5).unwrap_err();
    assert_eq!(
        failure.message(),
        "\n\texpected: iterator to contain <5>\n\t but was: <[1, 2, 3]>"
    );
}

#[test]
fn should_not_panic_if_iterator_does_not_contain_value_if_expected() {
    let test_vec = vec![1i64, 2, 3];
    assert!(assert_that(&test_vec).does_not_contain(&4).is_ok());
}

#[test]
fn should_panic_if_iterator_does_contain_value_but_expected_not_to() {
    let test_vec = vec![1i64, 2, 3];
    let failure = assert_that(&test_vec).does_not_contain(&2).unwrap_err();
    assert_eq!(
        failure.message(),
        "\n\texpected: iterator to not contain <2>\n\t but was: <[1, 2, 3]>"
    );
}

#[test]
fn should_not_panic_if_iterator_equals_expected_iterator() {
    let expected_vec = vec![1i64, 2, 3];
    let test_vec = vec![1i64, 2, 3];

    assert!(assert_that(&test_vec).equals_iterator(&expected_vec).is_ok());
}

#[test]
fn should_panic_if_iterator_does_not_equal_expected_iterator() {
    let expected_vec = vec![1i64, 2, 4];
    let test_vec = vec![1i64, 2, 3];

    let failure = assert_that(&test_vec).equals_iterator(&expected_vec).unwrap_err();
    assert_eq!(
        failure.message(),
        "\n\texpected: Iterator item of <4> (read <[1, 2]>)\n\t but was: Iterator item of <3> (read <[1, 2]>)"
    );
}

#[test]
fn should_not_panic_if_iterator_matches_on_value() {
    let mut test_into_iter = Vec::new();
    test_into_iter.push(TestEnum::Bad);
    test_into_iter.push(TestEnum::Good);
    test_into_iter.push(TestEnum::Bad);

    let r = assert_that(&test_into_iter).matching_contains(|val| matches!(val, &TestEnum::Good));
    assert!(r.is_ok());
}

#[test]
fn should_panic_if_iterator_does_not_match_on_value() {
    let mut test_into_iter = Vec::new();
    test_into_iter.push(TestEnum::Bad);
    test_into_iter.push(TestEnum::Bad);
    test_into_iter.push(TestEnum::Bad);

    let failure = assert_that(&test_into_iter)
        .matching_contains(|val| matches!(val, &TestEnum::Good))
        .unwrap_err();
    assert_eq!(
        failure.message(),
        "\n\texpectation failed for iterator with values <[Bad, Bad, Bad]>"
    );
}

#[test]
fn should_not_panic_if_vec_contains_mapped_value() {
    let test_vec = vec![TestStruct { value: 5 }, TestStruct { value: 6 }];
    let r = assert_that(&test_vec).mapped_contains(|val| val.value, &5u8);
    assert!(r.is_ok());
}

#[test]
fn should_panic_if_vec_does_not_contain_mapped_value() {
    let test_vec = vec![TestStruct { value: 5 }, TestStruct { value: 6 }];
    let failure = assert_that(&test_vec).mapped_contains(|val| val.value, &1u8).unwrap_err();
    assert_eq!(
        failure.message(),
        "\n\texpected: iterator to contain <1>\n\t but was: <[5, 6]>"
    );
}

#[derive(PartialEq)]
struct TestStruct {
    pub value: u8,
}

impl Describe for TestStruct {
    fn eq_spec(&self, _other: &Self) -> bool {
        unreachable!()
    }

    fn rendering(&self) -> vstd::seq::Seq<char> {
        unreachable!()
    }

    fn eq_item(&self, other: &Self) -> bool {
        self.value == other.value
    }

    fn render(&self) -> String {
        let mut out = String::new();
        out.push_str("TestStruct { value: ");
        out.push_str(&self.value.to_string());
        out.push_str(" }");
        out
    }
}

enum TestEnum {
    Good,
    Bad,
}

impl Describe for TestEnum {
    fn eq_spec(&self, _other: &Self) -> bool {
        unreachable!()
    }

    fn rendering(&self) -> vstd::seq::Seq<char> {
        unreachable!()
    }

    fn eq_item(&self, other: &Self) -> bool {
        matches!(
            (self, other),
            (TestEnum::Good, TestEnum::Good) | (TestEnum::Bad, TestEnum::Bad)
        )
    }

    fn render(&self) -> String {
        match self {
            TestEnum::Good => String::from("Good"),
            TestEnum::Bad => String::from("Bad"),
        }
    }
}
