use std::cell::Cell;

use speculoos::describe::Describe;
use speculoos::results::ResultAssertions;
use speculoos::iter::MappingIterAssertions;
use speculoos::subject::{assert_that, asserting};

#[derive(Clone, Copy, PartialEq)]
enum Quality {
    Good,
    Bad,
}

impl Describe for Quality {
    fn eq_spec(&self, _other: &Self) -> bool {
        unreachable!()
    }

    fn rendering(&self) -> vstd::seq::Seq<char> {
        unreachable!()
    }

    fn eq_item(&self, other: &Self) -> bool {
        self == other
    }

    fn render(&self) -> String {
        match self {
            Quality::Good => String::from("Good"),
            Quality::Bad => String::from("Bad"),
        }
    }
}

#[test]
fn matching_contains_visits_nothing_after_the_first_match() {
    let subject = vec![Quality::Bad, Quality::Good, Quality::Bad];
    let visited = Cell::new(0usize);
    let r = assert_that(&subject).matching_contains(|val| {
        visited.set(visited.get() + 1);
        matches!(val, &Quality::Good)
    });
    assert!(r.is_ok());
    assert_eq!(visited.get(), 2);
}

#[test]
fn matching_contains_visits_everything_when_nothing_matches() {
    let subject = vec![Quality::Bad, Quality::Bad];
    let visited = Cell::new(0usize);
    let r = assert_that(&subject).matching_contains(|val| {
        visited.set(visited.get() + 1);
        matches!(val, &Quality::Good)
    });
    assert!(r.is_err());
    assert_eq!(visited.get(), 2);
}

#[test]
fn mapped_contains_maps_every_element_despite_an_early_match() {
    let subject = vec![5i64, 6, 7];
    let mapped = Cell::new(0usize);
    let r = assert_that(&subject).mapped_contains(
        |val| {
            mapped.set(mapped.get() + 1);
            *val
        },
        &5i64,
    );
    assert!(r.is_ok());
    assert_eq!(mapped.get(), 3);
}

#[test]
fn contains_all_of_passes_on_the_first_example() {
    let subject = vec![1i64, 2, 3];
    assert!(assert_that(&subject).contains_all_of(&vec![2i64, 3]).is_ok());
}

#[test]
fn contains_all_of_passes_on_an_empty_expected_list() {
    let subject = vec![1i64, 2, 3];
    assert!(assert_that(&subject).contains_all_of(&vec![]).is_ok());
    let empty: Vec<i64> = vec![];
    assert!(assert_that(&empty).contains_all_of(&vec![]).is_ok());
}

#[test]
fn contains_all_of_honours_multiplicity() {
    let subject = vec![1i64, 1, 3];
    assert!(assert_that(&subject).contains_all_of(&vec![1i64, 1]).is_ok());
    assert!(assert_that(&subject).contains_all_of(&vec![1i64, 1, 1]).is_err());
}

#[test]
fn contains_always_fails_on_an_empty_subject() {
    let empty: Vec<i64> = vec![];
    let failure = assert_that(&empty).contains(&1i64).unwrap_err();
    assert_eq!(failure.message(), "\n\texpected: iterator to contain <1>\n\t but was: <[]>");
    assert!(assert_that(&empty).does_not_contain(&1i64).is_ok());
}

#[test]
fn equals_iterator_reports_the_side_that_ended_early() {
    let shorter = vec![1i64, 2];
    let longer = vec![1i64, 2, 3];

    let subject_ended = assert_that(&shorter).equals_iterator(&longer).unwrap_err();
    assert_eq!(
        subject_ended.message(),
        "\n\texpected: Iterator item of <3> (read <[1, 2]>)\n\t but was: Completed iterator (read <[1, 2]>)"
    );

    let expected_ended = assert_that(&longer).equals_iterator(&shorter).unwrap_err();
    assert_eq!(
        expected_ended.message(),
        "\n\texpected: Completed iterator (read <[1, 2]>)\n\t but was: Iterator item of <3> (read <[1, 2]>)"
    );
}

#[test]
fn equals_iterator_passes_on_empty_sequences() {
    let empty: Vec<i64> = vec![];
    let also_empty: Vec<i64> = vec![];
    assert!(assert_that(&empty).equals_iterator(&also_empty).is_ok());
}

#[test]
fn renderings_cover_negative_numbers_and_escapes() {
    let numbers = vec![-5i64, 0, 17];
    let failure = assert_that(&numbers).contains(&-7i64).unwrap_err();
    assert_eq!(
        failure.message(),
        "\n\texpected: iterator to contain <-7>\n\t but was: <[-5, 0, 17]>"
    );

    let words = vec!["a\"b\n".to_string()];
    let mismatch = assert_that(&words).contains(&"\t".to_string()).unwrap_err();
    assert_eq!(
        mismatch.message(),
        "\n\texpected: iterator to contain <\"\\t\">\n\t but was: <[\"a\\\"b\\n\"]>"
    );
}

#[test]
fn is_equal_to_compares_under_the_element_relation() {
    let one = 1i64;
    assert!(assert_that(&one).is_equal_to(&1i64).is_ok());
    let failure = assert_that(&one).is_equal_to(&2i64).unwrap_err();
    assert_eq!(failure.message(), "\n\texpected: <2>\n\t but was: <1>");
}

#[test]
fn descriptions_survive_narrowing() {
    let result: Result<String, String> = Ok("Hello".to_string());
    let subject = asserting("the greeting").that(&result);
    assert_eq!(subject.description, Some("the greeting".to_string()));
    let narrowed = subject.is_ok().unwrap();
    assert_eq!(narrowed.description, Some("the greeting".to_string()));
}

#[test]
fn renderings_cover_the_extreme_integers() {
    let numbers = vec![i64::MIN, i64::MAX];
    let failure = assert_that(&numbers).contains(&1i64).unwrap_err();
    assert_eq!(
        failure.message(),
        "\n\texpected: iterator to contain <1>\n\t but was: <[-9223372036854775808, 9223372036854775807]>"
    );
}
