//! Small verified helpers on strings and string vectors, shared by the
//! registry, the sandbox and the folder logic.

use vstd::prelude::*;

verus! {

/// Copies a `&str` into an owned `String` with the same characters.
pub fn str_to_string(s: &str) -> (r: String)
    ensures
        r@ == s@,
{
    s.to_owned()
}

/// Character-for-character equality of two string slices.
pub fn str_eq(a: &str, b: &str) -> (r: bool)
    ensures
        r == (a@ == b@),
{
    let a_owned = a.to_owned();
    let b_owned = b.to_owned();
    a_owned == b_owned
}

/// Whether `x` occurs in `v`, compared by characters.
pub fn vec_contains_str(v: &Vec<String>, x: &str) -> (r: bool)
    ensures
        r == v.deep_view().contains(x@),
{
    let mut i: usize = 0;
    while i < v.len()
        invariant
            0 <= i <= v.len(),
            forall|j: int| 0 <= j < i ==> v.deep_view()[j] != x@,
        decreases v.len() - i,
    {
        if str_eq(v[i].as_str(), x) {
            assert(v.deep_view()[i as int] == x@);
            return true;
        }
        i += 1;
    }
    assert(forall|j: int| 0 <= j < v.deep_view().len() ==> v.deep_view()[j] != x@);
    false
}

/// Whether `p` is a prefix of `s`.
pub open spec fn seq_starts_with(s: Seq<char>, p: Seq<char>) -> bool {
    p.len() <= s.len() && s.subrange(0, p.len() as int) == p
}

/// Whether `needle` occurs in `s` starting at `pos`.
pub open spec fn occurs_at(s: Seq<char>, needle: Seq<char>, pos: int) -> bool {
    0 <= pos && pos + needle.len() <= s.len() && s.subrange(pos, pos + needle.len()) == needle
}

/// Whether `needle` occurs anywhere in `s`.
pub open spec fn has_substring(s: Seq<char>, needle: Seq<char>) -> bool {
    exists|pos: int| occurs_at(s, needle, pos)
}

/// Whether `s` begins with `prefix`, compared by characters.
pub fn str_starts_with(s: &str, prefix: &str) -> (r: bool)
    ensures
        r == seq_starts_with(s@, prefix@),
{
    let n = prefix.unicode_len();
    let m = s.unicode_len();
    if n > m {
        return false;
    }
    let mut i: usize = 0;
    while i < n
        invariant
            0 <= i <= n,
            n == prefix@.len() <= s@.len(),
            forall|j: int| 0 <= j < i ==> s@[j] == prefix@[j],
        decreases n - i,
    {
        if s.get_char(i) != prefix.get_char(i) {
            assert(s@.subrange(0, n as int)[i as int] != prefix@[i as int]);
            return false;
        }
        i += 1;
    }
    proof {
        assert(s@.subrange(0, n as int) =~= prefix@);
    }
    true
}

/// Whether `needle` occurs at position `pos` of `s`, compared by
/// characters.
fn matches_at(s: &str, needle: &str, pos: usize) -> (r: bool)
    requires
        pos + needle@.len() <= s@.len(),
    ensures
        r == occurs_at(s@, needle@, pos as int),
{
    let n = needle.unicode_len();
    let m = s.unicode_len();
    let mut i: usize = 0;
    while i < n
        invariant
            0 <= i <= n,
            n == needle@.len(),
            m == s@.len(),
            pos + n <= m,
            forall|j: int| 0 <= j < i ==> s@[pos + j] == needle@[j],
        decreases n - i,
    {
        if s.get_char(pos + i) != needle.get_char(i) {
            assert(s@.subrange(pos as int, pos + n)[i as int] != needle@[i as int]);
            return false;
        }
        i += 1;
    }
    proof {
        assert(s@.subrange(pos as int, pos + n) =~= needle@);
    }
    true
}

/// Whether `needle` occurs anywhere in `s`, compared by characters.
pub fn str_contains(s: &str, needle: &str) -> (r: bool)
    ensures
        r == has_substring(s@, needle@),
{
    let n = needle.unicode_len();
    let m = s.unicode_len();
    if n > m {
        assert(forall|pos: int| !occurs_at(s@, needle@, pos));
        return false;
    }
    if n == 0 {
        proof {
            assert(s@.subrange(0, 0) =~= needle@);
            assert(occurs_at(s@, needle@, 0));
        }
        return true;
    }
    let mut pos: usize = 0;
    while pos < m - n + 1
        invariant
            0 <= pos <= m - n + 1,
            n == needle@.len(),
            m == s@.len(),
            0 < n <= m,
            forall|p: int| 0 <= p < pos ==> !occurs_at(s@, needle@, p),
        decreases m - n + 1 - pos,
    {
        if matches_at(s, needle, pos) {
            return true;
        }
        pos += 1;
    }
    proof {
        assert forall|p: int| !occurs_at(s@, needle@, p) by {
            if 0 <= p < m - n + 1 {
                assert(!occurs_at(s@, needle@, p));
            }
        }
    }
    false
}

/// The lowercase image of a string; `to_lowercase` names the function that
/// computes it.
pub uninterp spec fn lower_of(s: Seq<char>) -> Seq<char>;

/// Relies on `str::to_lowercase`: the lowercase image depends on the
/// characters alone, and an empty string stays empty.
#[verifier::external_body]
pub fn to_lowercase(s: &str) -> (r: String)
    ensures
        r@ == lower_of(s@),
        s@.len() == 0 ==> r@.len() == 0,
{
    s.to_lowercase()
}

/// Whether a path string is absolute: rooted at `/`, or at a drive letter
/// followed by `:` and a separator.
pub open spec fn spec_is_absolute_path(s: Seq<char>) -> bool {
    s.len() > 0 && (s[0] == '/' || (s.len() >= 3 && s[1] == ':' && (s[2] == '\\' || s[2] == '/')))
}

/// Whether a path string is absolute, by characters alone.
pub fn is_absolute_path(s: &str) -> (r: bool)
    ensures
        r == spec_is_absolute_path(s@),
{
    let m = s.unicode_len();
    if m == 0 {
        return false;
    }
    if s.get_char(0) == '/' {
        return true;
    }
    if m >= 3 && s.get_char(1) == ':' {
        let sep = s.get_char(2);
        return sep == '\\' || sep == '/';
    }
    false
}

/// Copies a vector of strings; the copy has the same views in the same
/// order.
pub fn clone_string_vec(v: &Vec<String>) -> (r: Vec<String>)
    ensures
        r.deep_view() == v.deep_view(),
{
    let mut r: Vec<String> = Vec::new();
    let mut i: usize = 0;
    while i < v.len()
        invariant
            0 <= i <= v.len(),
            r.len() == i,
            forall|j: int| 0 <= j < i ==> r.deep_view()[j] == v.deep_view()[j],
        decreases v.len() - i,
    {
        r.push(v[i].clone());
        i += 1;
    }
    proof {
        assert(r.deep_view() =~= v.deep_view());
    }
    r
}

} // verus!
