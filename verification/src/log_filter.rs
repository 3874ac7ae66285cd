//! The log filter with which the host starts: the user's own, with the GPU
//! stack's loudest crates turned down where the user did not speak of them.

use vstd::prelude::*;

verus! {

/// The filter where the user gave none.
pub const DEFAULT_FILTER: &'static str = "info";

/// `needle` stands in `hay` at place `i`.
pub open spec fn occurs_at(hay: Seq<char>, needle: Seq<char>, i: int) -> bool {
    0 <= i && i + needle.len() <= hay.len() && hay.subrange(i, i + needle.len()) == needle
}

/// `needle` stands somewhere in `hay`.
pub open spec fn occurs_in(hay: Seq<char>, needle: Seq<char>) -> bool {
    exists|i: int| occurs_at(hay, needle, i)
}

/// The filter with the crate `loud` turned down to warnings, unless the
/// filter speaks of the crate already.
pub open spec fn turned_down(filter: Seq<char>, loud: Seq<char>) -> Seq<char> {
    if occurs_in(filter, loud + "="@) {
        filter
    } else {
        filter + ","@ + loud + "=warn"@
    }
}

/// The filter with the three loud crates turned down, one after the other.
pub open spec fn quieted(filter: Seq<char>) -> Seq<char> {
    turned_down(turned_down(turned_down(filter, "naga"@), "wgpu_core"@), "wgpu_hal"@)
}

/// The characters of a string.
fn chars_of(s: &str) -> (chars: Vec<char>)
    ensures
        chars@ == s@,
{
    let n: usize = s.unicode_len();
    let mut chars: Vec<char> = Vec::new();
    let mut i: usize = 0;
    while i < n
        invariant
            n == s@.len(),
            i <= n,
            chars@ == s@.subrange(0, i as int),
        decreases n - i,
    {
        chars.push(s.get_char(i));
        assert(chars@ =~= s@.subrange(0, i + 1));
        i += 1;
    }
    assert(chars@ =~= s@);
    chars
}

/// Tells whether `needle` stands in `hay` at place `start`.
fn matches_at(hay: &Vec<char>, needle: &Vec<char>, start: usize) -> (found: bool)
    requires
        start + needle@.len() <= hay@.len(),
    ensures
        found == occurs_at(hay@, needle@, start as int),
{
    let n: usize = hay.len();
    let m: usize = needle.len();
    let mut k: usize = 0;
    while k < m
        invariant
            n == hay@.len(),
            m == needle@.len(),
            start + m <= n,
            k <= m,
            forall|j: int| 0 <= j < k ==> hay@[start + j] == needle@[j],
        decreases m - k,
    {
        if hay[start + k] != needle[k] {
            assert(hay@.subrange(start as int, start + m)[k as int] != needle@[k as int]);
            return false;
        }
        k += 1;
    }
    assert(hay@.subrange(start as int, start + m) =~= needle@);
    true
}

/// Tells whether `needle` stands somewhere in `hay`.
pub fn contains(hay: &str, needle: &str) -> (found: bool)
    ensures
        found == occurs_in(hay@, needle@),
{
    let hay_chars = chars_of(hay);
    let needle_chars = chars_of(needle);
    let n: usize = hay_chars.len();
    let m: usize = needle_chars.len();
    if m > n {
        return false;
    }
    let last: usize = n - m;
    let mut i: usize = 0;
    while i < last
        invariant
            n == hay_chars@.len(),
            m == needle_chars@.len(),
            hay_chars@ == hay@,
            needle_chars@ == needle@,
            last == n - m,
            i <= last,
            forall|k: int| 0 <= k < i ==> !occurs_at(hay@, needle@, k),
        decreases last - i,
    {
        if matches_at(&hay_chars, &needle_chars, i) {
            return true;
        }
        i += 1;
    }
    matches_at(&hay_chars, &needle_chars, last)
}

/// Turns the crate `loud` down to warnings in `filter`, unless the filter
/// speaks of the crate already.
pub fn turn_down(filter: String, loud: &str) -> (result: String)
    ensures
        result@ == turned_down(filter@, loud@),
{
    let key: String = String::from_str(loud).concat("=");
    if contains(filter.as_str(), key.as_str()) {
        filter
    } else {
        filter.concat(",").concat(loud).concat("=warn")
    }
}

/// The filter that the host starts with: the user's, or `info` where the
/// user gave none, with `naga`, `wgpu_core` and `wgpu_hal` turned down.
pub fn quiet_filter(rust_log: Option<&str>) -> (filter: String)
    ensures
        filter@ == quieted(
            match rust_log {
                Some(given) => given@,
                None => DEFAULT_FILTER@,
            },
        ),
{
    let filter: String = match rust_log {
        Some(given) => String::from_str(given),
        None => String::from_str(DEFAULT_FILTER),
    };
    let filter = turn_down(filter, "naga");
    let filter = turn_down(filter, "wgpu_core");
    turn_down(filter, "wgpu_hal")
}

} // verus!
