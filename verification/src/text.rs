//! Small operations on text that the rest of the library shares.

use crate::command::string_views;
use vstd::prelude::*;
use vstd::utf8::encode_utf8;

verus! {

/// True when `needle` occurs in `haystack` as a run of neighbouring bytes.
/// The empty run occurs everywhere.
pub open spec fn has_run(haystack: Seq<u8>, needle: Seq<u8>) -> bool {
    exists|at: int| occurs_at(haystack, needle, at)
}

/// True when `needle` stands in `haystack` from position `at` on.
pub open spec fn occurs_at(haystack: Seq<u8>, needle: Seq<u8>, at: int) -> bool {
    0 <= at && at + needle.len() <= haystack.len() && haystack.subrange(
        at,
        at + needle.len(),
    ) == needle
}

/// True when the text `needle` occurs in the text `haystack`: the encoding
/// of the one occurs in the encoding of the other.
pub open spec fn text_contains(haystack: Seq<char>, needle: Seq<char>) -> bool {
    has_run(encode_utf8(haystack), encode_utf8(needle))
}

/// True when one of `values` is the text `wanted`.
pub open spec fn lists_text(values: Seq<Seq<char>>, wanted: Seq<char>) -> bool {
    exists|i: int| 0 <= i < values.len() && #[trigger] values[i] == wanted
}

/// True when `a` and `b` hold the same text.
pub fn same_text(a: &str, b: &str) -> (same: bool)
    ensures
        same == (a@ == b@),
{
    String::from_str(a) == String::from_str(b)
}

/// True when one of `values` is the text `wanted`.
pub fn list_contains(values: &Vec<String>, wanted: &str) -> (found: bool)
    ensures
        found == lists_text(string_views(values@), wanted@),
{
    let mut i: usize = 0;
    while i < values.len()
        invariant
            i <= values.len(),
            forall|k: int| 0 <= k < i ==> (#[trigger] string_views(values@)[k]) != wanted@,
        decreases values.len() - i,
    {
        if same_text(values[i].as_str(), wanted) {
            assert(string_views(values@)[i as int] == wanted@);
            return true;
        }
        i = i + 1;
    }
    false
}

/// True when `needle` stands in `haystack` from position `at` on.
fn matches_at(haystack: &[u8], needle: &[u8], at: usize) -> (matched: bool)
    requires
        at + needle@.len() <= haystack@.len(),
    ensures
        matched == occurs_at(haystack@, needle@, at as int),
{
    let length: usize = haystack.len();
    let mut k: usize = 0;
    while k < needle.len()
        invariant
            k <= needle@.len(),
            at + needle@.len() <= haystack@.len(),
            haystack@.len() == length,
            forall|j: int| 0 <= j < k ==> haystack@[at + j] == needle@[j],
        decreases needle@.len() - k,
    {
        if haystack[at + k] != needle[k] {
            return false;
        }
        k = k + 1;
    }
    assert(haystack@.subrange(at as int, at + needle@.len()) =~= needle@);
    true
}

/// True when `needle` occurs in `haystack`.
pub fn contains_text(haystack: &str, needle: &str) -> (found: bool)
    ensures
        found == text_contains(haystack@, needle@),
{
    let hay = haystack.as_bytes();
    let pin = needle.as_bytes();
    if pin.len() > hay.len() {
        return false;
    }
    let last: usize = hay.len() - pin.len();
    let mut at: usize = 0;
    loop
        invariant
            at <= last,
            last == hay@.len() - pin@.len(),
            hay@ == encode_utf8(haystack@),
            pin@ == encode_utf8(needle@),
            forall|k: int| 0 <= k < at ==> !occurs_at(hay@, pin@, k),
        decreases last - at,
    {
        if matches_at(hay, pin, at) {
            return true;
        }
        if at == last {
            return false;
        }
        at = at + 1;
    }
}

/// A copy of a list of strings.
pub fn copy_strings(strings: &Vec<String>) -> (copy: Vec<String>)
    ensures
        string_views(copy@) == string_views(strings@),
{
    let mut copy: Vec<String> = Vec::new();
    let mut i: usize = 0;
    while i < strings.len()
        invariant
            i <= strings.len(),
            copy@.len() == i,
            forall|k: int| 0 <= k < i ==> (#[trigger] copy@[k])@ == strings@[k]@,
        decreases strings.len() - i,
    {
        copy.push(strings[i].clone());
        i = i + 1;
    }
    copy
}

} // verus!
