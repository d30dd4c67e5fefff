//! Confidence-gated natural-language due-date inference.
//!
//! The question-answering engine and the fuzzy date parser both run
//! outside the library, as collaborators: a caller asks the engine the
//! fixed [`due_question`] against the context built by
//! [`crate::text::make_context`], hands the top answer back as a
//! [`QaAnswer`], best-effort-parses the answer span as a date phrase, and
//! hands the parsed (year, month, day) triple in as a plain value.  This
//! module owns the decisions: the fixed confidence gate, and the
//! validation of the parsed triple as a real calendar date.

use vstd::prelude::*;
use vstd::string::StringExecFns;

use crate::date::{extract, opt_triple, opt_wf, valid_date, Date};

verus! {

/// The top answer of the question-answering engine for one work item:
/// the answer span and the engine's confidence, a [0, 1] score scaled to
/// thousandths.
#[derive(Clone, Debug)]
pub struct QaAnswer {
    pub answer: String,
    pub score_milli: u32,
}

/// The fixed confidence gate: answers scored at or below 0.5 are
/// discarded as unreliable.
pub const CONFIDENCE_THRESHOLD_MILLI: u32 = 500;

/// The one question the adapter ever asks the question-answering engine.
pub fn due_question() -> (q: String)
    ensures
        q@ == "When is it due?"@,
{
    String::from_str("When is it due?")
}

/// An answer survives the confidence gate.
pub open spec fn confident(qa: QaAnswer) -> bool {
    qa.score_milli > CONFIDENCE_THRESHOLD_MILLI
}

/// The date a parsed triple stands for: itself where it names a real
/// calendar date, nothing otherwise.
pub open spec fn checked_triple(t: Option<(int, int, int)>) -> Option<(int, int, int)> {
    match t {
        Some((y, m, d)) => if valid_date(y, m, d) {
            Some((y, m, d))
        } else {
            None
        },
        None => None,
    }
}

/// Gates a question-answering result by the fixed confidence threshold
/// and validates the parsed answer span.
///
/// `parsed` is the collaborator's fuzzy parse of the answer as a
/// (year, month, day) triple (`None` where no engine ran or the span did
/// not parse).  The result is the validated parsed date exactly when the
/// answer's confidence clears the threshold; no answer, a low
/// confidence, an unparsed span or an impossible triple yield `None`,
/// an absent date, never an error.
pub fn infer_due(qa: Option<&QaAnswer>, parsed: Option<(i32, i32, i32)>) -> (r: Option<Date>)
    ensures
        match qa {
            None => r is None,
            Some(a) => if confident(*a) {
                opt_triple(r) == checked_triple(
                    match parsed {
                        Some((y, m, d)) => Some((y as int, m as int, d as int)),
                        None => None,
                    },
                )
            } else {
                r is None
            },
        },
        opt_wf(r),
{
    match qa {
        None => None,
        Some(a) => {
            if a.score_milli <= CONFIDENCE_THRESHOLD_MILLI {
                None
            } else {
                match parsed {
                    Some((y, m, d)) => extract(y, m, d),
                    None => None,
                }
            }
        },
    }
}

} // verus!
