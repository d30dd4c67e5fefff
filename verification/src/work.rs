//! Normalization of raw platform records into `Work` records.
//!
//! A raw record mirrors the platform's sparse-field contract: every field
//! may be absent.  Normalization checks the required fields, resolves the
//! due date through the policy, and flags the item as a test.

use vstd::prelude::*;
use vstd::string::StringExecFns;

use crate::date::{opt_triple, opt_wf, Date};
use crate::policy::{resolve, spec_resolve};
use crate::text::{is_test, is_test_text};

verus! {

/// A structured due date as the platform sends it: each component may be
/// absent.
#[derive(Clone, Debug)]
pub struct RawDate {
    pub year: Option<i32>,
    pub month: Option<i32>,
    pub day: Option<i32>,
}

/// A raw course-work item as the platform sends it.
#[derive(Clone, Debug)]
pub struct RawCourseWork {
    pub title: Option<String>,
    pub description: Option<String>,
    pub alternate_link: Option<String>,
    pub due_date: Option<RawDate>,
    pub update_time: Option<String>,
}

/// A raw announcement as the platform sends it.
#[derive(Clone, Debug)]
pub struct RawAnnouncement {
    pub text: Option<String>,
    pub alternate_link: Option<String>,
}

/// A required field was absent from a raw record: a contract violation by
/// the upstream platform, fatal for that record.
#[derive(Clone, Copy, Debug, PartialEq, Eq, Structural)]
pub enum WorkError {
    MissingTitle,
    MissingLink,
    IncompleteDueDate,
}

/// A normalized work item: a snapshot at fetch time, immutable once
/// constructed.  An absent due date is a valid terminal state, not an
/// error.
#[derive(Clone, Debug, PartialEq, Eq, Hash)]
pub struct Work {
    pub link: String,
    pub title: String,
    pub description: String,
    pub due: Option<Date>,
    pub test: bool,
}

impl Work {
    /// Every date a normalized item carries is a real calendar date.
    pub open spec fn wf(self) -> bool {
        opt_wf(self.due)
    }
}

/// The view of an optional owned string.
pub open spec fn opt_string_view(s: Option<String>) -> Option<Seq<char>> {
    match s {
        Some(t) => Some(t@),
        None => None,
    }
}

/// The complete (year, month, day) triple of a raw date, if every
/// component is present.
pub open spec fn raw_date_triple(d: RawDate) -> Option<(int, int, int)> {
    if d.year is Some && d.month is Some && d.day is Some {
        Some((d.year->0 as int, d.month->0 as int, d.day->0 as int))
    } else {
        None
    }
}

/// The structured triple carried by an optional raw date, where complete.
pub open spec fn opt_raw_triple(d: Option<RawDate>) -> Option<(int, int, int)> {
    match d {
        Some(rd) => raw_date_triple(rd),
        None => None,
    }
}

impl Work {
    /// Normalizes a raw course-work item.
    ///
    /// Title and link are required: their absence is a typed error.  A
    /// present due-date triple missing a component is a typed error as
    /// well.  The description defaults to the empty string; the due date
    /// follows the resolution policy with the item's update time as the
    /// fallback timestamp; `test` is the text classifier's verdict over
    /// description and title.  `inferred` is the inference adapter's
    /// output for this item, `None` where inference is disabled.
    pub fn new(w: RawCourseWork, inferred: Option<Date>) -> (r: Result<Work, WorkError>)
        requires
            opt_wf(inferred),
        ensures
            r is Err <==> (w.title is None || w.alternate_link is None || (
            w.due_date matches Some(rd) && raw_date_triple(rd) is None)),
            r == Err::<Work, WorkError>(WorkError::MissingTitle) <==> w.title is None,
            r == Err::<Work, WorkError>(WorkError::MissingLink) <==> (w.title is Some
                && w.alternate_link is None),
            r matches Ok(work) ==> {
                &&& work.title@ == w.title->0@
                &&& work.link@ == w.alternate_link->0@
                &&& work.description@ == match w.description {
                    Some(d) => d@,
                    None => Seq::<char>::empty(),
                }
                &&& work.test == is_test_text(
                    vstd::utf8::encode_utf8(work.description@),
                    Some(vstd::utf8::encode_utf8(w.title->0@)),
                )
                &&& opt_triple(work.due) == spec_resolve(
                    opt_string_view(w.description),
                    opt_raw_triple(w.due_date),
                    opt_triple(inferred),
                    opt_string_view(w.update_time),
                )
                &&& work.wf()
            },
    {
        let title = match w.title {
            Some(t) => t,
            None => {
                return Err(WorkError::MissingTitle);
            },
        };
        let link = match w.alternate_link {
            Some(l) => l,
            None => {
                return Err(WorkError::MissingLink);
            },
        };
        let structured: Option<(i32, i32, i32)> = match &w.due_date {
            Some(rd) => match (rd.year, rd.month, rd.day) {
                (Some(y), Some(m), Some(d)) => Some((y, m, d)),
                _ => {
                    return Err(WorkError::IncompleteDueDate);
                },
            },
            None => None,
        };
        let due = resolve(w.description.as_ref(), structured, inferred, w.update_time.as_ref());
        let description = match w.description {
            Some(d) => d,
            None => String::new(),
        };
        let test = is_test(description.as_str(), Some(title.as_str()));
        Ok(Work { link, title, description, due, test })
    }

    /// Normalizes a raw announcement.
    ///
    /// An announcement matters only where it conveys a deadline: absent
    /// or empty text, or an unresolvable due date, drops the item
    /// (`Ok(None)`, not an error).  The link is required once the item is
    /// kept.  The title is synthesized as `"Announcement"`; the
    /// announcement text serves as the description and feeds the
    /// classifier without a title.  `inferred` is the inference adapter's
    /// output for the announcement text, `None` where inference is
    /// disabled.
    pub fn from_announcement(a: RawAnnouncement, inferred: Option<Date>) -> (r: Result<
        Option<Work>,
        WorkError,
    >)
        requires
            opt_wf(inferred),
        ensures
            r == Ok::<Option<Work>, WorkError>(None) <==> (a.text is None || a.text->0@.len() == 0
                || spec_resolve(
                Some(a.text->0@),
                None,
                opt_triple(inferred),
                None,
            ) is None),
            r is Err <==> (a.text is Some && a.text->0@.len() > 0 && spec_resolve(
                Some(a.text->0@),
                None,
                opt_triple(inferred),
                None,
            ) is Some && a.alternate_link is None),
            r matches Err(e) ==> e == WorkError::MissingLink,
            r matches Ok(Some(work)) ==> {
                &&& work.link@ == a.alternate_link->0@
                &&& work.title@ == "Announcement"@
                &&& work.description@ == a.text->0@
                &&& work.test == is_test_text(vstd::utf8::encode_utf8(a.text->0@), None)
                &&& opt_triple(work.due) == spec_resolve(
                    Some(a.text->0@),
                    None,
                    opt_triple(inferred),
                    None,
                )
                &&& work.due is Some
                &&& work.wf()
            },
    {
        let text = match a.text {
            Some(t) => t,
            None => {
                return Ok(None);
            },
        };
        if text.as_str().is_empty() {
            return Ok(None);
        }
        let due = resolve(Some(&text), None, inferred, None);
        if due.is_none() {
            return Ok(None);
        }
        let link = match a.alternate_link {
            Some(l) => l,
            None => {
                return Err(WorkError::MissingLink);
            },
        };
        let test = is_test(text.as_str(), None);
        Ok(Some(Work { link, title: String::from_str("Announcement"), description: text, due, test }))
    }
}

/// The successfully normalized items of a batch, in order.
pub open spec fn kept_works(s: Seq<Result<Work, WorkError>>) -> Seq<Work>
    decreases s.len(),
{
    if s.len() == 0 {
        Seq::empty()
    } else {
        (match s.first() {
            Ok(w) => seq![w],
            Err(_) => Seq::<Work>::empty(),
        }) + kept_works(s.drop_first())
    }
}

/// Every item a batch keeps is well-formed where every successful input
/// was.
proof fn lemma_kept_works_wf(s: Seq<Result<Work, WorkError>>)
    requires
        forall|j: int| 0 <= j < s.len() ==> ((#[trigger] s[j]) matches Ok(w) ==> w.wf()),
    ensures
        forall|i: int| 0 <= i < kept_works(s).len() ==> (#[trigger] kept_works(s)[i]).wf(),
    decreases s.len(),
{
    if s.len() > 0 {
        assert(forall|j: int|
            0 <= j < s.drop_first().len() ==> s.drop_first()[j] == s[j + 1]);
        lemma_kept_works_wf(s.drop_first());
        let piece = (match s.first() {
            Ok(w) => seq![w],
            Err(_) => Seq::<Work>::empty(),
        });
        assert(kept_works(s) == piece + kept_works(s.drop_first()));
        assert forall|i: int| 0 <= i < kept_works(s).len() implies (#[trigger] kept_works(
            s,
        )[i]).wf() by {
            if i < piece.len() {
                assert(s[0] matches Ok(w) ==> w.wf());
                assert(kept_works(s)[i] == piece[0]);
            } else {
                assert(kept_works(s)[i] == kept_works(s.drop_first())[i - piece.len()]);
            }
        }
    }
}

/// Best-effort batch filtering: keeps the successfully normalized work
/// items, in order; a failed item is dropped, never fatal to its
/// siblings.
pub fn keep_normalized(items: Vec<Result<Work, WorkError>>) -> (r: Vec<Work>)
    ensures
        r@ == kept_works(items@),
        (forall|j: int|
            0 <= j < items@.len() ==> ((#[trigger] items@[j]) matches Ok(w) ==> w.wf())) ==> (
        forall|i: int| 0 <= i < r@.len() ==> (#[trigger] r@[i]).wf()),
{
    let ghost orig = items@;
    let mut items = items;
    let mut r: Vec<Work> = Vec::new();
    while items.len() > 0
        invariant
            r@ + kept_works(items@) == kept_works(orig),
        decreases items@.len(),
    {
        let ghost before = items@;
        let x = items.remove(0);
        proof {
            assert(before.remove(0) =~= before.drop_first());
            assert(x == before.first());
        }
        match x {
            Ok(w) => {
                r.push(w);
                assert(r@ + kept_works(items@) =~= kept_works(orig));
            },
            Err(_) => {
                assert(r@ + kept_works(items@) =~= kept_works(orig));
            },
        }
    }
    proof {
        assert(r@ + kept_works(items@) =~= r@);
        if forall|j: int| 0 <= j < orig.len() ==> ((#[trigger] orig[j]) matches Ok(w) ==> w.wf()) {
            lemma_kept_works_wf(orig);
        }
    }
    r
}

} // verus!
