//! Tests for the due-date resolution policy and the confidence-gated
//! inference adapter.

use chrono::Datelike;
use classwork::date::Date;
use classwork::infer::{due_question, infer_due, QaAnswer};
use classwork::policy::{needs_inference, resolve};

fn d(year: i32, month: i32, day: i32) -> Date {
    Date { year, month, day }
}

/// The collaborator step the program performs outside the library: a
/// best-effort fuzzy parse of an answer span, here pinned to a fixed
/// reference instant (noon of the reference date) so the outcome is
/// deterministic.
fn fuzzy(answer: &str, reference: Date) -> Option<(i32, i32, i32)> {
    let base = chrono::NaiveDate::from_ymd_opt(
        reference.year,
        reference.month as u32,
        reference.day as u32,
    )?
    .and_hms_opt(12, 0, 0)?;
    let dt = fuzzydate::parse_relative_to(answer, base).ok()?;
    let date = dt.date();
    Some((date.year(), date.month() as i32, date.day() as i32))
}

#[test]
fn structured_date_wins_over_everything() {
    let desc = String::from("quiz next Friday, really");
    let ts = String::from("2020-01-01T00:00:00Z");
    let r = resolve(
        Some(&desc),
        Some((2024, 5, 10)),
        Some(d(1999, 1, 1)),
        Some(&ts),
    );
    assert_eq!(r, Some(d(2024, 5, 10)));
}

#[test]
fn structured_date_ignores_inference_outcome() {
    let desc = String::from("due tomorrow");
    let with_inferred = resolve(Some(&desc), Some((2024, 5, 10)), Some(d(2001, 2, 3)), None);
    let without_inferred = resolve(Some(&desc), Some((2024, 5, 10)), None, None);
    assert_eq!(with_inferred, without_inferred);
    assert_eq!(with_inferred, Some(d(2024, 5, 10)));
}

#[test]
fn invalid_structured_date_is_trusted_and_rejected() {
    let desc = String::from("due 2024-05-10");
    let r = resolve(Some(&desc), Some((2023, 2, 29)), Some(d(2024, 5, 10)), None);
    assert_eq!(r, None);
}

#[test]
fn invalid_structured_date_still_allows_timestamp_fallback() {
    let ts = String::from("2024-03-01T10:00:00Z");
    let r = resolve(None, Some((2023, 2, 29)), None, Some(&ts));
    assert_eq!(r, Some(d(2024, 3, 1)));
}

#[test]
fn update_timestamp_is_the_last_resort() {
    let ts = String::from("2024-03-01T10:00:00Z");
    let r = resolve(None, None, None, Some(&ts));
    assert_eq!(r, Some(d(2024, 3, 1)));
}

#[test]
fn resolved_inferred_date_beats_timestamp() {
    let desc = String::from("due sometime");
    let ts = String::from("2020-01-01T00:00:00Z");
    let r = resolve(Some(&desc), None, Some(d(2024, 5, 10)), Some(&ts));
    assert_eq!(r, Some(d(2024, 5, 10)));
}

#[test]
fn inferred_date_without_description_is_ignored() {
    // The inference branch applies only where a description is present.
    assert_eq!(resolve(None, None, Some(d(2024, 5, 10)), None), None);
}

#[test]
fn nothing_resolvable_is_no_date() {
    assert_eq!(resolve(None, None, None, None), None);
    let desc = String::from("no deadline here");
    assert_eq!(resolve(Some(&desc), None, None, None), None);
}

#[test]
fn low_confidence_answer_is_discarded() {
    // The answer span is a well-formed date, and a parsed triple is even
    // supplied: the low confidence still discards it.
    let qa = QaAnswer { answer: String::from("2024-05-10"), score_milli: 400 };
    assert_eq!(infer_due(Some(&qa), Some((2024, 5, 10))), None);
    assert_eq!(infer_due(Some(&qa), None), None);
    assert_eq!(infer_due(None, Some((2024, 5, 10))), None);
}

#[test]
fn low_confidence_answer_resolves_to_no_date() {
    let desc = String::from("it is due 2024-05-10");
    let qa = QaAnswer { answer: String::from("2024-05-10"), score_milli: 400 };
    let inferred = infer_due(Some(&qa), fuzzy(&qa.answer, d(2024, 5, 1)));
    assert_eq!(resolve(Some(&desc), None, inferred, None), None);
}

#[test]
fn threshold_is_inclusive() {
    let qa = QaAnswer { answer: String::from("2024-05-10"), score_milli: 500 };
    assert_eq!(infer_due(Some(&qa), Some((2024, 5, 10))), None);
}

#[test]
fn impossible_parsed_triple_is_no_date() {
    let qa = QaAnswer { answer: String::from("February 29th 2023"), score_milli: 900 };
    assert_eq!(infer_due(Some(&qa), Some((2023, 2, 29))), None);
}

#[test]
fn confident_relative_answer_resolves_against_the_reference() {
    // 2024-05-01 is a Wednesday; the Friday of the following week is
    // 2024-05-10.
    let qa = QaAnswer { answer: String::from("next Friday"), score_milli: 900 };
    let r = infer_due(Some(&qa), fuzzy(&qa.answer, d(2024, 5, 1)));
    assert_eq!(r, Some(d(2024, 5, 10)));
}

#[test]
fn confident_absolute_answer_parses() {
    let qa = QaAnswer { answer: String::from("5/10/2024"), score_milli: 900 };
    assert_eq!(infer_due(Some(&qa), fuzzy(&qa.answer, d(2020, 1, 1))), Some(d(2024, 5, 10)));
}

#[test]
fn confident_garbage_answer_is_no_date() {
    let qa = QaAnswer { answer: String::from("whenever you like"), score_milli: 900 };
    let parsed = fuzzy(&qa.answer, d(2024, 5, 1));
    assert_eq!(parsed, None);
    assert_eq!(infer_due(Some(&qa), parsed), None);
}

#[test]
fn the_question_is_fixed() {
    assert_eq!(due_question(), "When is it due?");
}

#[test]
fn inference_is_needed_only_without_structured_date() {
    assert!(needs_inference(false, true));
    assert!(!needs_inference(true, true));
    assert!(!needs_inference(true, false));
    assert!(!needs_inference(false, false));
}
