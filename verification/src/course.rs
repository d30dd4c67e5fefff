//! Assembly of a `Course` record: numeric identifiers parsed from the
//! platform's opaque string IDs, required-field checking, and the ordered
//! work list (course-work items first, then announcement-derived items).

use vstd::prelude::*;

use crate::work::Work;

verus! {

/// A raw course as the platform sends it: every field may be absent.
#[derive(Clone, Debug)]
pub struct RawCourse {
    pub id: Option<String>,
    pub name: Option<String>,
    pub description: Option<String>,
    pub owner_id: Option<String>,
}

/// A required field of a raw course was absent or held no numeric
/// identifier: a contract violation by the upstream platform, fatal for
/// that course.
#[derive(Clone, Copy, Debug, PartialEq, Eq, Structural)]
pub enum CourseError {
    MissingId,
    InvalidId,
    MissingName,
    MissingOwner,
    InvalidOwner,
}

/// A normalized course with its work list.
#[derive(Clone, Debug, PartialEq, Eq, Hash)]
pub struct Course {
    pub id: u128,
    pub name: String,
    pub description: String,
    pub teacher: u128,
    pub work: Vec<Work>,
}

impl Course {
    /// Every work item of the course is well-formed.
    pub open spec fn wf(self) -> bool {
        forall|i: int| 0 <= i < self.work@.len() ==> (#[trigger] self.work@[i]).wf()
    }
}

/// An ASCII decimal digit.
pub open spec fn is_digit(b: u8) -> bool {
    '0' as u8 <= b <= '9' as u8
}

/// Every byte of the sequence is an ASCII decimal digit.
pub open spec fn all_digits(s: Seq<u8>) -> bool {
    forall|i: int| 0 <= i < s.len() ==> is_digit(#[trigger] s[i])
}

/// The value of a sequence of ASCII decimal digits, most significant
/// first.
pub open spec fn dec_val(s: Seq<u8>) -> int
    decreases s.len(),
{
    if s.len() == 0 {
        0
    } else {
        dec_val(s.drop_last()) * 10 + (s.last() - '0' as u8)
    }
}

/// The string is a well-formed decimal identifier: nonempty, digits
/// only, and its value is a positive integer that fits a 128-bit
/// unsigned integer.
pub open spec fn parses_as_id(s: Seq<char>) -> bool {
    let b = vstd::utf8::encode_utf8(s);
    b.len() > 0 && all_digits(b) && 1 <= dec_val(b) <= u128::MAX
}

/// The numeric value of a decimal identifier string.
pub open spec fn id_value(s: Seq<char>) -> int {
    dec_val(vstd::utf8::encode_utf8(s))
}

/// A digit string's value is nonnegative.
proof fn lemma_dec_val_nonneg(s: Seq<u8>)
    requires
        all_digits(s),
    ensures
        dec_val(s) >= 0,
    decreases s.len(),
{
    if s.len() > 0 {
        assert(all_digits(s.drop_last()));
        lemma_dec_val_nonneg(s.drop_last());
    }
}

/// Extending a digit string never lowers its value: the value of a
/// prefix is a lower bound for the whole.
proof fn lemma_dec_val_prefix(s: Seq<u8>, j: int)
    requires
        all_digits(s),
        0 <= j <= s.len(),
    ensures
        dec_val(s.take(j)) <= dec_val(s),
    decreases s.len() - j,
{
    if j < s.len() {
        lemma_dec_val_prefix(s, j + 1);
        assert(s.take(j + 1).drop_last() =~= s.take(j));
        assert(all_digits(s.take(j)));
        lemma_dec_val_nonneg(s.take(j));
        assert(dec_val(s.take(j + 1)) == dec_val(s.take(j)) * 10 + (s[j] - '0' as u8));
        assert(dec_val(s.take(j)) <= dec_val(s.take(j + 1)));
    } else {
        assert(s.take(j) =~= s);
    }
}

/// Parses a platform identifier: a nonempty string of decimal digits
/// whose value is a positive integer fitting 128 bits.
///
/// Returns the value exactly when the string has that form; `None`
/// otherwise (empty, a non-digit character, zero, or a value past the
/// 128-bit range).
pub fn parse_id(s: &str) -> (r: Option<u128>)
    ensures
        r is Some <==> parses_as_id(s@),
        r matches Some(v) ==> v as int == id_value(s@),
{
    let b = s.as_bytes();
    let n = b.len();
    if n == 0 {
        return None;
    }
    let mut acc: u128 = 0;
    let mut i: usize = 0;
    while i < n
        invariant
            n == b@.len(),
            b@ == vstd::utf8::encode_utf8(s@),
            n > 0,
            0 <= i <= n,
            all_digits(b@.take(i as int)),
            acc as int == dec_val(b@.take(i as int)),
        decreases n - i,
    {
        let c = b[i];
        if c < '0' as u8 || c > '9' as u8 {
            assert(!is_digit(b@[i as int]));
            return None;
        }
        let d: u128 = (c - '0' as u8) as u128;
        assert(b@.take(i + 1).drop_last() =~= b@.take(i as int));
        assert(all_digits(b@.take(i + 1)));
        assert(dec_val(b@.take(i + 1)) == acc * 10 + d);
        let overflow: Ghost<bool> = Ghost(acc * 10 + d > u128::MAX);
        proof {
            if overflow@ && all_digits(b@) && dec_val(b@) <= u128::MAX {
                lemma_dec_val_prefix(b@, i + 1);
                assert(false);
            }
        }
        let shifted = match acc.checked_mul(10) {
            Some(x) => x,
            None => {
                return None;
            },
        };
        acc = match shifted.checked_add(d) {
            Some(x) => x,
            None => {
                return None;
            },
        };
        i += 1;
    }
    assert(b@.take(i as int) =~= b@);
    if acc == 0 {
        None
    } else {
        Some(acc)
    }
}

impl Course {
    /// Assembles a course record from a raw course and its normalized
    /// work lists.
    ///
    /// The platform's string `id` and `owner_id` are required and must be
    /// positive decimal identifiers; the name is required; the description
    /// defaults to the empty string.  The work list is the course-work
    /// items followed by the announcement-derived items, in the order
    /// given.
    pub fn new(c: RawCourse, course_work: Vec<Work>, announcements: Vec<Work>) -> (r: Result<
        Course,
        CourseError,
    >)
        requires
            forall|i: int| 0 <= i < course_work@.len() ==> (#[trigger] course_work@[i]).wf(),
            forall|i: int| 0 <= i < announcements@.len() ==> (#[trigger] announcements@[i]).wf(),
        ensures
            r == Err::<Course, CourseError>(CourseError::MissingId) <==> c.id is None,
            r == Err::<Course, CourseError>(CourseError::InvalidId) <==> (c.id matches Some(id)
                && !parses_as_id(id@)),
            r == Err::<Course, CourseError>(CourseError::MissingName) <==> (c.id matches Some(id)
                && parses_as_id(id@) && c.name is None),
            r == Err::<Course, CourseError>(CourseError::MissingOwner) <==> (c.id matches Some(id)
                && parses_as_id(id@) && c.name is Some && c.owner_id is None),
            r == Err::<Course, CourseError>(CourseError::InvalidOwner) <==> (c.id matches Some(id)
                && parses_as_id(id@) && c.name is Some && (c.owner_id matches Some(o)
                && !parses_as_id(o@))),
            r matches Ok(course) ==> {
                &&& c.id matches Some(id) && parses_as_id(id@) && course.id as int == id_value(id@)
                &&& course.name@ == c.name->0@
                &&& course.description@ == match c.description {
                    Some(d) => d@,
                    None => Seq::<char>::empty(),
                }
                &&& c.owner_id matches Some(o) && parses_as_id(o@) && course.teacher as int
                    == id_value(o@)
                &&& course.work@ == course_work@ + announcements@
                &&& course.wf()
            },
    {
        let id = match &c.id {
            Some(s) => match parse_id(s.as_str()) {
                Some(v) => v,
                None => {
                    return Err(CourseError::InvalidId);
                },
            },
            None => {
                return Err(CourseError::MissingId);
            },
        };
        let name = match c.name {
            Some(n) => n,
            None => {
                return Err(CourseError::MissingName);
            },
        };
        let teacher = match &c.owner_id {
            Some(s) => match parse_id(s.as_str()) {
                Some(v) => v,
                None => {
                    return Err(CourseError::InvalidOwner);
                },
            },
            None => {
                return Err(CourseError::MissingOwner);
            },
        };
        let description = match c.description {
            Some(d) => d,
            None => String::new(),
        };
        let mut work = course_work;
        let mut tail = announcements;
        work.append(&mut tail);
        let course = Course { id, name, description, teacher, work };
        assert(course.wf());
        Ok(course)
    }
}

} // verus!
