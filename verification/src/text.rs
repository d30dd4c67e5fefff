//! Text classification: does a description or title indicate a test,
//! exam or quiz?  Also the synthesis of the context string handed to the
//! natural-language inference engine.
//!
//! Matching is case-sensitive, over the UTF-8 byte encoding of the text;
//! the three markers are ASCII, so a byte-level match is a character-level
//! match.

use vstd::prelude::*;
use vstd::string::StringExecFns;
use vstd::string::StringSliceAdditionalSpecFns;

verus! {

/// The needle `n` occurs in `h` starting at position `i`.
pub open spec fn match_at(h: Seq<u8>, n: Seq<u8>, i: int) -> bool {
    0 <= i && i + n.len() <= h.len() && h.subrange(i, i + n.len()) == n
}

/// The needle `n` occurs somewhere in `h`.
pub open spec fn contains_seq(h: Seq<u8>, n: Seq<u8>) -> bool {
    exists|i: int| match_at(h, n, i)
}

/// The UTF-8 bytes of the marker `"test"`.
pub open spec fn marker_test() -> Seq<u8> {
    seq!['t' as u8, 'e' as u8, 's' as u8, 't' as u8]
}

/// The UTF-8 bytes of the marker `"exam"`.
pub open spec fn marker_exam() -> Seq<u8> {
    seq!['e' as u8, 'x' as u8, 'a' as u8, 'm' as u8]
}

/// The UTF-8 bytes of the marker `"quiz"`.
pub open spec fn marker_quiz() -> Seq<u8> {
    seq!['q' as u8, 'u' as u8, 'i' as u8, 'z' as u8]
}

/// The text contains at least one of the three assessment markers.
pub open spec fn has_marker(s: Seq<u8>) -> bool {
    contains_seq(s, marker_test()) || contains_seq(s, marker_exam()) || contains_seq(
        s,
        marker_quiz(),
    )
}

/// A work item is a test when its description, or its title if present,
/// contains one of the markers `"test"`, `"exam"`, `"quiz"`.
pub open spec fn is_test_text(desc: Seq<u8>, title: Option<Seq<u8>>) -> bool {
    has_marker(desc) || (title matches Some(t) && has_marker(t))
}

/// The needle occurs at position `i` of the haystack.
fn match_at_exec(h: &[u8], n: &[u8], i: usize) -> (b: bool)
    requires
        i + n@.len() <= h@.len(),
    ensures
        b == match_at(h@, n@, i as int),
{
    let hlen = h.len();
    let mut j: usize = 0;
    while j < n.len()
        invariant
            0 <= j <= n@.len(),
            i + n@.len() <= h@.len(),
            h@.len() == hlen,
            forall|k: int| 0 <= k < j ==> h@[i + k] == n@[k],
        decreases n@.len() - j,
    {
        if h[i + j] != n[j] {
            assert(h@.subrange(i as int, i + n@.len())[j as int] != n@[j as int]);
            return false;
        }
        j += 1;
    }
    assert(h@.subrange(i as int, i + n@.len()) =~= n@);
    true
}

/// Case-sensitive substring search.
fn contains_exec(h: &[u8], n: &[u8]) -> (b: bool)
    ensures
        b == contains_seq(h@, n@),
{
    if n.len() > h.len() {
        assert(forall|i: int| !match_at(h@, n@, i));
        return false;
    }
    if n.len() == 0 {
        assert(h@.subrange(0, 0) =~= n@);
        assert(match_at(h@, n@, 0));
        return true;
    }
    let hlen = h.len();
    let end: usize = h.len() - n.len();
    let mut i: usize = 0;
    while i <= end
        invariant
            end == h@.len() - n@.len(),
            n@.len() >= 1,
            h@.len() == hlen,
            0 <= i <= end + 1,
            forall|k: int| 0 <= k < i ==> !match_at(h@, n@, k),
        decreases end + 1 - i,
    {
        if match_at_exec(h, n, i) {
            return true;
        }
        i += 1;
    }
    assert(forall|k: int| match_at(h@, n@, k) ==> 0 <= k < i);
    false
}

/// Whether the byte encoding of `s` contains a marker.
fn has_marker_exec(s: &str) -> (b: bool)
    ensures
        b == has_marker(s.spec_bytes()),
{
    let bytes = s.as_bytes();
    let test: Vec<u8> = vec!['t' as u8, 'e' as u8, 's' as u8, 't' as u8];
    let exam: Vec<u8> = vec!['e' as u8, 'x' as u8, 'a' as u8, 'm' as u8];
    let quiz: Vec<u8> = vec!['q' as u8, 'u' as u8, 'i' as u8, 'z' as u8];
    assert(test@ =~= marker_test());
    assert(exam@ =~= marker_exam());
    assert(quiz@ =~= marker_quiz());
    contains_exec(bytes, test.as_slice()) || contains_exec(bytes, exam.as_slice())
        || contains_exec(bytes, quiz.as_slice())
}

/// Flags a work item as a test/assessment.
///
/// Returns true exactly when the description, or the title if one is
/// present, contains one of the literal markers `"test"`, `"exam"`,
/// `"quiz"` (case-sensitive).  Total: never fails.
pub fn is_test(desc: &str, title: Option<&str>) -> (b: bool)
    ensures
        b == is_test_text(
            desc.spec_bytes(),
            match title {
                Some(t) => Some(t.spec_bytes()),
                None => None,
            },
        ),
{
    if has_marker_exec(desc) {
        return true;
    }
    match title {
        Some(t) => has_marker_exec(t),
        None => false,
    }
}

/// Any text containing `"exam"` is classified as a test, whatever the
/// title holds.
pub proof fn lemma_exam_implies_test(desc: Seq<u8>, title: Option<Seq<u8>>)
    requires
        contains_seq(desc, marker_exam()),
    ensures
        is_test_text(desc, title),
{
}

/// A text containing none of the three markers in either the description
/// or the title is never classified as a test.
pub proof fn lemma_no_marker_not_test(desc: Seq<u8>, title: Option<Seq<u8>>)
    requires
        !has_marker(desc),
        title matches Some(t) ==> !has_marker(t),
    ensures
        !is_test_text(desc, title),
{
}

/// Synthesizes the context handed to the question-answering engine from
/// a title and a description.
pub fn make_context(title: &str, desc: &str) -> (r: String)
    ensures
        r@ == "title: "@ + title@ + "\ndescription: "@ + desc@,
{
    let mut s = String::new();
    s.append("title: ");
    s.append(title);
    s.append("\ndescription: ");
    s.append(desc);
    assert(s@ =~= "title: "@ + title@ + "\ndescription: "@ + desc@);
    s
}

} // verus!
