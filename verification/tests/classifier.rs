//! Tests for the test/exam/quiz classifier.  Matching is case-sensitive,
//! as documented on `is_test`.

use classwork::text::is_test;

#[test]
fn exam_in_description_is_test() {
    assert!(is_test("final exam next week", None));
    assert!(is_test("exam", None));
    assert!(is_test("midterm exam review", Some("Session 4")));
}

#[test]
fn other_markers_in_description_are_tests() {
    assert!(is_test("a short quiz on chapter 3", None));
    assert!(is_test("unit test practice", None));
}

#[test]
fn marker_in_title_is_test() {
    assert!(is_test("read the handout", Some("quiz 1")));
    assert!(is_test("", Some("practice test")));
    // Case-sensitivity applies to the title as well.
    assert!(!is_test("read the handout", Some("Quiz 1")));
}

#[test]
fn no_marker_is_not_test() {
    assert!(!is_test("read chapter 5 and take notes", None));
    assert!(!is_test("homework", Some("Essay draft")));
    assert!(!is_test("", None));
}

#[test]
fn matching_is_case_sensitive() {
    assert!(!is_test("Final Exam", None));
    assert!(!is_test("QUIZ", Some("TEST")));
    assert!(is_test("Final exam", None));
}

#[test]
fn marker_split_across_words_does_not_match() {
    assert!(!is_test("ex am qu iz te st", None));
}

#[test]
fn marker_inside_longer_word_matches() {
    assert!(is_test("examination", None));
    assert!(is_test("contest entry", None));
}
