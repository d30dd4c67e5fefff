//! Verified core of a classroom-work collector.
//!
//! The library normalizes raw course-work and announcement records into
//! `Work` records with a resolved due date, flags items that look like
//! tests, and assembles `Course` records.  The due-date resolution policy
//! layers a structured platform date, a confidence-gated natural-language
//! inference answer, and a last-resort update-timestamp fallback.

pub mod course;
pub mod date;
pub mod infer;
pub mod policy;
pub mod text;
pub mod work;
