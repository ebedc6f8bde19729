//! Small verified text helpers shared across the crate.

use vstd::prelude::*;

verus! {

/// Relies on `alloc::string::String::push`: appends exactly the one
/// character to the end of the string.
pub assume_specification[ String::push ](s: &mut String, ch: char)
    ensures
        final(s)@ == old(s)@.push(ch),
;

/// A field-for-field copy of an optional string.
pub fn clone_opt_string(o: &Option<String>) -> (r: Option<String>)
    ensures
        r == *o,
{
    match o {
        Some(s) => Some(s.clone()),
        None => None,
    }
}

/// `needle` occurs contiguously somewhere in `hay`.
pub open spec fn seq_contains(hay: Seq<char>, needle: Seq<char>) -> bool {
    exists|i: int|
        0 <= i <= hay.len() - needle.len() && #[trigger] hay.subrange(i, i + needle.len())
            == needle
}

/// Does `hay[at .. at + needle.len()]` spell out `needle`?
fn matches_at(hay: &str, needle: &str, at: usize, hay_len: usize, needle_len: usize) -> (b: bool)
    requires
        hay_len == hay@.len(),
        needle_len == needle@.len(),
        at + needle_len <= hay_len,
    ensures
        b == (hay@.subrange(at as int, at + needle@.len()) == needle@),
{
    let mut k: usize = 0;
    while k < needle_len
        invariant
            0 <= k <= needle_len,
            hay_len == hay@.len(),
            needle_len == needle@.len(),
            at + needle_len <= hay_len,
            forall|t: int| 0 <= t < k ==> hay@[at + t] == needle@[t],
        decreases needle_len - k,
    {
        if hay.get_char(at + k) != needle.get_char(k) {
            assert(hay@.subrange(at as int, at + needle@.len())[k as int] != needle@[k as int]);
            return false;
        }
        k = k + 1;
    }
    assert(hay@.subrange(at as int, at + needle@.len()) =~= needle@);
    true
}

/// Decides `seq_contains`: a naive scan over every start position.
pub fn str_contains(hay: &str, needle: &str) -> (b: bool)
    ensures
        b == seq_contains(hay@, needle@),
{
    let hay_len = hay.unicode_len();
    let needle_len = needle.unicode_len();
    if needle_len > hay_len {
        assert(!seq_contains(hay@, needle@));
        return false;
    }
    if needle_len == 0 {
        assert(hay@.subrange(0, 0 + needle@.len() as int) =~= needle@);
        return true;
    }
    let mut i: usize = 0;
    while i <= hay_len - needle_len
        invariant
            0 <= i <= hay_len - needle_len + 1,
            1 <= needle_len <= hay_len,
            hay_len == hay@.len(),
            needle_len == needle@.len(),
            forall|j: int|
                0 <= j < i ==> #[trigger] hay@.subrange(j, j + needle@.len()) != needle@,
        decreases hay_len - i,
    {
        if matches_at(hay, needle, i, hay_len, needle_len) {
            assert(seq_contains(hay@, needle@));
            return true;
        }
        i = i + 1;
    }
    assert(!seq_contains(hay@, needle@));
    false
}

} // verus!
