use vstd::prelude::*;
use vstd::string::{StrSliceExecFns, StringExecFns};

verus! {

/// `needle` occurs in `hay` starting at position `at`.
pub open spec fn occurs_at(hay: Seq<char>, needle: Seq<char>, at: int) -> bool {
    &&& 0 <= at
    &&& at + needle.len() <= hay.len()
    &&& hay.subrange(at, at + needle.len()) == needle
}

/// `needle` occurs somewhere in `hay` as a contiguous run of characters.
pub open spec fn has_substring(hay: Seq<char>, needle: Seq<char>) -> bool {
    exists|at: int| occurs_at(hay, needle, at)
}

/// `suffix` is the tail of `text`.
pub open spec fn has_suffix(text: Seq<char>, suffix: Seq<char>) -> bool {
    occurs_at(text, suffix, text.len() - suffix.len())
}

/// `prefix` is the head of `text`.
pub open spec fn has_prefix(text: Seq<char>, prefix: Seq<char>) -> bool {
    occurs_at(text, prefix, 0)
}

/// The characters of a string slice, in order.
pub fn characters(s: &str) -> (out: Vec<char>)
    ensures
        out@ == s@,
{
    broadcast use vstd::string::group_string_axioms;

    let mut out: Vec<char> = Vec::new();
    for c in it: s.chars()
        invariant
            it.seq() == s@,
            out@ == it.seq().take(it.index() as int),
    {
        out.push(c);
    }
    assert(out@ == s@.take(s@.len() as int));
    out
}

/// Whether `needle` stands in `hay` at position `at`.
fn matches_at(hay: &Vec<char>, needle: &Vec<char>, at: usize) -> (found: bool)
    requires
        at + needle.len() <= hay.len(),
    ensures
        found == occurs_at(hay@, needle@, at as int),
{
    let mut seen: usize = 0;
    while seen < needle.len()
        invariant
            seen <= needle.len(),
            at + needle.len() <= hay.len(),
            forall|k: int| 0 <= k < seen ==> hay[at + k] == needle[k],
        decreases needle.len() - seen,
    {
        if hay[at + seen] != needle[seen] {
            assert(hay@.subrange(at as int, at + needle.len())[seen as int] != needle[seen as int]);
            return false;
        }
        seen = seen + 1;
    }
    assert(hay@.subrange(at as int, at + needle.len()) == needle@);
    true
}

/// Whether `text` ends in `suffix`.
pub fn ends_with(text: &str, suffix: &str) -> (found: bool)
    ensures
        found == has_suffix(text@, suffix@),
{
    let symbols = characters(text);
    let tail = characters(suffix);
    if tail.len() > symbols.len() {
        return false;
    }
    matches_at(&symbols, &tail, symbols.len() - tail.len())
}

/// Whether `text` begins with `prefix`.
pub fn starts_with(text: &str, prefix: &str) -> (found: bool)
    ensures
        found == has_prefix(text@, prefix@),
{
    let symbols = characters(text);
    let head = characters(prefix);
    if head.len() > symbols.len() {
        return false;
    }
    matches_at(&symbols, &head, 0)
}

/// Whether `needle` occurs somewhere in `hay`.
pub fn contains(hay: &str, needle: &str) -> (found: bool)
    ensures
        found == has_substring(hay@, needle@),
{
    let symbols = characters(hay);
    let wanted = characters(needle);
    if wanted.len() > symbols.len() {
        return false;
    }
    let last = symbols.len() - wanted.len();
    let mut at: usize = 0;
    loop
        invariant
            at <= last,
            last == symbols.len() - wanted.len(),
            symbols@ == hay@,
            wanted@ == needle@,
            forall|before: int| 0 <= before < at ==> !occurs_at(hay@, needle@, before),
        decreases last - at,
    {
        if matches_at(&symbols, &wanted, at) {
            return true;
        }
        if at == last {
            return false;
        }
        at = at + 1;
    }
}

/// The text as it is shown where there is room for `limit` characters: in
/// full where it fits, and else its first `limit` characters followed by
/// three dots.
pub fn shorten(text: &str, limit: usize) -> (shown: String)
    ensures
        shown@ == if text@.len() > limit {
            text@.take(limit as int) + "..."@
        } else {
            text@
        },
{
    if text.unicode_len() > limit {
        text.substring_char(0, limit).to_owned().concat("...")
    } else {
        text.to_owned()
    }
}

} // verus!
