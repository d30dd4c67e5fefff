//! The due-date resolution policy: which source of truth to trust, and in
//! what order.
//!
//! First a structured platform date, trusted or rejected but never
//! bypassed; else, where a description is present, the inference adapter's
//! answer; and only where both yielded nothing, the date component of the
//! item's update timestamp.

use vstd::prelude::*;

use crate::date::{extract, opt_triple, opt_wf, parse_timestamp, ts_date_of, valid_date, Date};

verus! {

/// The primary resolution: the structured date where a triple is present
/// (invalid triples yield `None` here, never a text fallback), else the
/// inferred date where a description is present, else `None`.
pub open spec fn spec_primary(
    desc: Option<Seq<char>>,
    structured: Option<(int, int, int)>,
    inferred: Option<(int, int, int)>,
) -> Option<(int, int, int)> {
    match structured {
        Some((y, m, d)) => if valid_date(y, m, d) {
            Some((y, m, d))
        } else {
            None
        },
        None => match desc {
            Some(_) => inferred,
            None => None,
        },
    }
}

/// The full policy: the primary resolution, or, where it yielded nothing
/// and an update timestamp is present, the timestamp's date component.
pub open spec fn spec_resolve(
    desc: Option<Seq<char>>,
    structured: Option<(int, int, int)>,
    inferred: Option<(int, int, int)>,
    update_time: Option<Seq<char>>,
) -> Option<(int, int, int)> {
    match spec_primary(desc, structured, inferred) {
        Some(d) => Some(d),
        None => match update_time {
            Some(u) => ts_date_of(u),
            None => None,
        },
    }
}

/// The view of an optional borrowed string, for stating contracts.
pub open spec fn opt_view(s: Option<&String>) -> Option<Seq<char>> {
    match s {
        Some(t) => Some(t@),
        None => None,
    }
}

/// The inference adapter need only be consulted for an item that carries
/// no structured date but does carry a description.
pub fn needs_inference(structured: bool, description_present: bool) -> (b: bool)
    ensures
        b == (!structured && description_present),
{
    !structured && description_present
}

/// Resolves a work item's due date.
///
/// `inferred` is the inference adapter's output for the item's
/// description (pass `None` where inference is disabled or was not run);
/// it is consulted only when no structured date is present and a
/// description is.  The result follows [`spec_resolve`] exactly: a
/// present structured triple is trusted or rejected, never bypassed; the
/// update timestamp fires only when every other source yielded nothing;
/// and an unresolvable date is `None`, never an error.
pub fn resolve(
    description: Option<&String>,
    structured: Option<(i32, i32, i32)>,
    inferred: Option<Date>,
    update_time: Option<&String>,
) -> (r: Option<Date>)
    requires
        opt_wf(inferred),
    ensures
        opt_triple(r) == spec_resolve(
            opt_view(description),
            match structured {
                Some((y, m, d)) => Some((y as int, m as int, d as int)),
                None => None,
            },
            opt_triple(inferred),
            opt_view(update_time),
        ),
        opt_wf(r),
{
    let primary: Option<Date> = match structured {
        Some((y, m, d)) => extract(y, m, d),
        None => match description {
            Some(_) => inferred,
            None => None,
        },
    };
    match primary {
        Some(d) => Some(d),
        None => match update_time {
            Some(u) => parse_timestamp(u.as_str()),
            None => None,
        },
    }
}

/// A present, valid structured date always wins: the policy returns it
/// unchanged, whatever the description, the inference adapter's answer
/// and the update timestamp hold — in particular, the result never
/// depends on the inference outcome.
pub proof fn lemma_structured_precedence(
    desc: Option<Seq<char>>,
    y: int,
    m: int,
    d: int,
    inferred: Option<(int, int, int)>,
    update_time: Option<Seq<char>>,
)
    requires
        valid_date(y, m, d),
    ensures
        spec_resolve(desc, Some((y, m, d)), inferred, update_time) == Some((y, m, d)),
{
}

/// Whenever a structured date is present, valid or not, the inference
/// outcome is irrelevant: any two inference answers resolve alike.
pub proof fn lemma_inference_not_consulted(
    desc: Option<Seq<char>>,
    structured: (int, int, int),
    inferred1: Option<(int, int, int)>,
    inferred2: Option<(int, int, int)>,
    update_time: Option<Seq<char>>,
)
    ensures
        spec_resolve(desc, Some(structured), inferred1, update_time) == spec_resolve(
            desc,
            Some(structured),
            inferred2,
            update_time,
        ),
{
}

/// A discarded inference answer leaves only the structured date and the
/// timestamp fallback: with no structured date, no surviving inference
/// outcome and no update timestamp, the policy yields no date, whatever
/// the description holds.
pub proof fn lemma_no_sources_no_date(desc: Option<Seq<char>>)
    ensures
        spec_resolve(desc, None, None, None) is None,
{
}

/// The timestamp fallback fires only as a last resort: where the primary
/// resolution found a date, a present update timestamp changes nothing.
pub proof fn lemma_resolved_date_wins(
    desc: Option<Seq<char>>,
    structured: Option<(int, int, int)>,
    inferred: Option<(int, int, int)>,
    update_time: Option<Seq<char>>,
)
    requires
        spec_primary(desc, structured, inferred) is Some,
    ensures
        spec_resolve(desc, structured, inferred, update_time) == spec_primary(
            desc,
            structured,
            inferred,
        ),
{
}

} // verus!
