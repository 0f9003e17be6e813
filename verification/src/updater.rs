//! Update decisions: what a release's version and asset names mean.
//!
//! Fetching releases, downloading and installing are host-side work; what
//! is decided here — whether a version is newer than the running one, and
//! which platform and architecture an asset file name is for — is pure and
//! verified.

use vstd::prelude::*;

use crate::textutil::{has_substring, lower_of, str_contains, str_to_string, to_lowercase};

verus! {

/// A published update: version, title, notes, publication date, and one
/// entry per platform build.
pub struct UpdateInfo {
    pub version: String,
    pub name: String,
    pub notes: String,
    pub pub_date: String,
    pub platforms: Vec<PlatformUpdate>,
}

/// One platform build of an update.
pub struct PlatformUpdate {
    pub platform: String,
    pub arch: String,
    pub url: String,
    pub signature: String,
    pub size: u64,
}

/// Where an update currently stands.
#[derive(Debug, Clone, Copy, PartialEq, Eq, Structural)]
pub enum UpdateStage {
    Checking,
    Downloading,
    Verifying,
    Installing,
    Complete,
    Error,
}

/// How the updater behaves: where to look, how often, and whether to act
/// on its own.
pub struct UpdateConfig {
    pub check_interval_ms: u64,
    pub endpoints: Vec<String>,
    pub public_key: String,
    pub download_dir: String,
    pub auto_install: bool,
    pub check_on_startup: bool,
    pub beta_channel: bool,
}

/// The numeric value of a digit string, most significant first.
pub open spec fn digits_val(s: Seq<char>) -> int
    decreases s.len(),
{
    if s.len() == 0 {
        0
    } else {
        digits_val(s.drop_last()) * 10 + (s.last() as int - '0' as int)
    }
}

/// Whether every character of `s` is a decimal digit.
pub open spec fn all_digits(s: Seq<char>) -> bool {
    forall|i: int| 0 <= i < s.len() ==> '0' <= #[trigger] s[i] <= '9'
}

/// The number a version segment stands for: a non-empty, all-digit string
/// whose value fits in 32 bits; anything else is no number.
pub open spec fn parse_u32_str(s: Seq<char>) -> Option<u32> {
    if s.len() > 0 && all_digits(s) && digits_val(s) <= u32::MAX {
        Some(digits_val(s) as u32)
    } else {
        None
    }
}

/// The position of the first `.` in `s`, when there is one.
pub open spec fn first_dot(s: Seq<char>) -> int {
    choose|i: int| 0 <= i < s.len() && s[i] == '.' && (forall|j: int| 0 <= j < i ==> s[j] != '.')
}

/// Whether `s` holds a `.` at all.
pub open spec fn has_dot(s: Seq<char>) -> bool {
    exists|i: int| 0 <= i < s.len() && s[i] == '.'
}

/// The segments of `s` between its dots, in order; a string without dots
/// is one segment.
pub open spec fn split_dots(s: Seq<char>) -> Seq<Seq<char>>
    decreases s.len(),
{
    if !has_dot(s) {
        seq![s]
    } else {
        let i = first_dot(s);
        if 0 <= i < s.len() {
            seq![s.take(i)] + split_dots(s.skip(i + 1))
        } else {
            seq![s]
        }
    }
}

/// The numeric segments among `segs`, in order; segments that are no
/// number are passed over.
pub open spec fn parts_of(segs: Seq<Seq<char>>) -> Seq<u32>
    decreases segs.len(),
{
    if segs.len() == 0 {
        Seq::empty()
    } else {
        match parse_u32_str(segs[0]) {
            Some(v) => seq![v] + parts_of(segs.drop_first()),
            None => parts_of(segs.drop_first()),
        }
    }
}

/// The numeric version components of a version string.
pub open spec fn spec_version_parts(s: Seq<char>) -> Seq<u32> {
    parts_of(split_dots(s))
}

/// The `i`-th component, zero when the version has fewer.
pub open spec fn part_or_zero(parts: Seq<u32>, i: int) -> u32 {
    if 0 <= i < parts.len() {
        parts[i]
    } else {
        0u32
    }
}

/// Whether `new` is strictly newer than `cur`, comparing major, minor and
/// patch in order, missing components counting as zero.
pub open spec fn spec_is_newer(cur: Seq<u32>, new: Seq<u32>) -> bool {
    let c0 = part_or_zero(cur, 0);
    let n0 = part_or_zero(new, 0);
    let c1 = part_or_zero(cur, 1);
    let n1 = part_or_zero(new, 1);
    let c2 = part_or_zero(cur, 2);
    let n2 = part_or_zero(new, 2);
    if n0 != c0 {
        n0 > c0
    } else if n1 != c1 {
        n1 > c1
    } else {
        n2 > c2
    }
}

/// A digit string's value only grows as digits are appended.
proof fn lemma_digits_val_bounds(s: Seq<char>)
    requires
        all_digits(s),
    ensures
        digits_val(s) >= 0,
        forall|i: int| 0 <= i <= s.len() ==> #[trigger] digits_val(s.take(i)) <= digits_val(s),
    decreases s.len(),
{
    if s.len() == 0 {
        assert forall|i: int| 0 <= i <= s.len() implies #[trigger] digits_val(s.take(i))
            <= digits_val(s) by {
            assert(s.take(i) =~= s);
        }
    } else {
        let head = s.drop_last();
        assert(all_digits(head));
        lemma_digits_val_bounds(head);
        assert(digits_val(s) == digits_val(head) * 10 + (s.last() as int - '0' as int));
        assert(digits_val(head) * 10 >= digits_val(head)) by {
            assert(digits_val(head) >= 0);
        }
        assert forall|i: int| 0 <= i <= s.len() implies #[trigger] digits_val(s.take(i))
            <= digits_val(s) by {
            if i == s.len() {
                assert(s.take(i) =~= s);
            } else {
                assert(s.take(i) =~= head.take(i));
                assert(digits_val(head.take(i)) <= digits_val(head));
            }
        }
    }
}

/// Reads a version segment as a number, as [`parse_u32_str`] says.
fn parse_u32_seg(s: &str) -> (r: Option<u32>)
    ensures
        r == parse_u32_str(s@),
{
    let n = s.unicode_len();
    if n == 0 {
        return None;
    }
    let mut value: u32 = 0;
    let mut i: usize = 0;
    while i < n
        invariant
            0 <= i <= n,
            n == s@.len(),
            all_digits(s@.take(i as int)),
            value == digits_val(s@.take(i as int)),
        decreases n - i,
    {
        let c = s.get_char(i);
        if c < '0' || c > '9' {
            return None;
        }
        let d: u32 = (c as u32) - 48;
        proof {
            assert(s@.take(i + 1).drop_last() =~= s@.take(i as int));
            assert(s@.take(i + 1).last() == s@[i as int]);
        }
        if value > (u32::MAX - d) / 10 {
            proof {
                let t = s@.take(i + 1);
                assert(all_digits(t));
                assert(digits_val(t) > u32::MAX);
                if all_digits(s@) {
                    lemma_digits_val_bounds(s@);
                    assert(s@.take(i + 1) == t);
                    assert(digits_val(s@) >= digits_val(t));
                }
            }
            return None;
        }
        value = value * 10 + d;
        i += 1;
    }
    proof {
        assert(s@.take(n as int) =~= s@);
    }
    Some(value)
}

/// The position of the first dot of `s`, when `s` has one.
fn find_dot(s: &str) -> (r: Option<usize>)
    ensures
        match r {
            Some(i) => i < s@.len() && s@[i as int] == '.' && (forall|j: int|
                0 <= j < i ==> s@[j] != '.'),
            None => !has_dot(s@),
        },
{
    let n = s.unicode_len();
    let mut i: usize = 0;
    while i < n
        invariant
            0 <= i <= n,
            n == s@.len(),
            forall|j: int| 0 <= j < i ==> s@[j] != '.',
        decreases n - i,
    {
        if s.get_char(i) == '.' {
            return Some(i);
        }
        i += 1;
    }
    None
}

/// The numeric components of a version string, as
/// [`spec_version_parts`] says.
fn version_parts(s: &str) -> (r: Vec<u32>)
    ensures
        r@ == spec_version_parts(s@),
    decreases s@.len(),
{
    let n = s.unicode_len();
    match find_dot(s) {
        None => {
            let mut out: Vec<u32> = Vec::new();
            if let Some(v) = parse_u32_seg(s) {
                out.push(v);
                proof {
                    assert(split_dots(s@) == seq![s@]);
                    assert(seq![s@].drop_first() =~= Seq::<Seq<char>>::empty());
                    assert(out@ =~= seq![v] + parts_of(seq![s@].drop_first()));
                }
            } else {
                proof {
                    assert(split_dots(s@) == seq![s@]);
                    assert(seq![s@].drop_first() =~= Seq::<Seq<char>>::empty());
                    assert(out@ =~= parts_of(seq![s@].drop_first()));
                }
            }
            out
        },
        Some(i) => {
            proof {
                assert(has_dot(s@));
                let k = first_dot(s@);
                assert(0 <= k < s@.len() && s@[k] == '.' && (forall|j: int|
                    0 <= j < k ==> s@[j] != '.'));
                if k < i {
                    assert(s@[k] != '.');
                } else if k > i {
                    assert(s@[i as int] != '.');
                }
                assert(k == i);
            }
            let head = s.substring_char(0, i);
            let tail = s.substring_char(i + 1, n);
            proof {
                assert(head@ =~= s@.take(i as int));
                assert(tail@ =~= s@.skip(i + 1));
                assert(split_dots(s@) == seq![s@.take(i as int)] + split_dots(s@.skip(i + 1)));
            }
            let head_part = parse_u32_seg(head);
            let mut rest = version_parts(tail);
            let ghost segs = split_dots(s@);
            proof {
                assert(segs[0] == s@.take(i as int));
                assert(segs.drop_first() =~= split_dots(s@.skip(i + 1)));
            }
            match head_part {
                Some(v) => {
                    let ghost rest_view = rest@;
                    let mut out: Vec<u32> = Vec::new();
                    out.push(v);
                    out.append(&mut rest);
                    proof {
                        assert(out@ =~= seq![v] + rest_view);
                    }
                    out
                },
                None => rest,
            }
        },
    }
}

/// Whether `new_version` is strictly newer than `current_version`, read as
/// dotted numeric versions: numeric segments are compared major, minor,
/// patch, a missing or non-numeric segment counting as zero, and equal
/// versions are not newer.
pub fn is_newer_version(current_version: &str, new_version: &str) -> (r: bool)
    ensures
        r == spec_is_newer(
            spec_version_parts(current_version@),
            spec_version_parts(new_version@),
        ),
{
    let current_parts = version_parts(current_version);
    let new_parts = version_parts(new_version);
    let c0 = if current_parts.len() > 0 { current_parts[0] } else { 0 };
    let c1 = if current_parts.len() > 1 { current_parts[1] } else { 0 };
    let c2 = if current_parts.len() > 2 { current_parts[2] } else { 0 };
    let n0 = if new_parts.len() > 0 { new_parts[0] } else { 0 };
    let n1 = if new_parts.len() > 1 { new_parts[1] } else { 0 };
    let n2 = if new_parts.len() > 2 { new_parts[2] } else { 0 };
    if n0 != c0 {
        n0 > c0
    } else if n1 != c1 {
        n1 > c1
    } else {
        n2 > c2
    }
}

/// The platform an asset file name is built for, judged case-insensitively
/// by marker substrings; no marker means no platform.
pub open spec fn spec_platform_of(lowered: Seq<char>) -> Seq<char> {
    if has_substring(lowered, "windows"@) || has_substring(lowered, ".exe"@) || has_substring(
        lowered,
        ".msi"@,
    ) {
        "windows"@
    } else if has_substring(lowered, "macos"@) || has_substring(lowered, "darwin"@)
        || has_substring(lowered, ".dmg"@) {
        "darwin"@
    } else if has_substring(lowered, "linux"@) || has_substring(lowered, ".appimage"@)
        || has_substring(lowered, ".deb"@) {
        "linux"@
    } else {
        Seq::empty()
    }
}

/// The architecture an asset file name is built for; an unmarked name is
/// assumed to be for the prevailing 64-bit architecture.
pub open spec fn spec_arch_of(lowered: Seq<char>) -> Seq<char> {
    if has_substring(lowered, "x64"@) || has_substring(lowered, "x86_64"@) || has_substring(
        lowered,
        "amd64"@,
    ) {
        "x86_64"@
    } else if has_substring(lowered, "arm64"@) || has_substring(lowered, "aarch64"@) {
        "aarch64"@
    } else if has_substring(lowered, "x86"@) || has_substring(lowered, "i386"@) {
        "i686"@
    } else {
        "x86_64"@
    }
}

/// Reads platform and architecture off an asset file name,
/// case-insensitively.  A name that marks no platform yields a pair of
/// empty strings.
pub fn parse_platform_from_filename(filename: &str) -> (r: (String, String))
    ensures
        spec_platform_of(lower_of(filename@)) == Seq::<char>::empty() ==> r.0@ == Seq::<
            char,
        >::empty() && r.1@ == Seq::<char>::empty(),
        spec_platform_of(lower_of(filename@)) != Seq::<char>::empty() ==> r.0@ == spec_platform_of(
            lower_of(filename@),
        ) && r.1@ == spec_arch_of(lower_of(filename@)),
{
    let lowered = to_lowercase(filename);
    let l = lowered.as_str();

    let platform: &str = if str_contains(l, "windows") || str_contains(l, ".exe") || str_contains(
        l,
        ".msi",
    ) {
        "windows"
    } else if str_contains(l, "macos") || str_contains(l, "darwin") || str_contains(l, ".dmg") {
        "darwin"
    } else if str_contains(l, "linux") || str_contains(l, ".appimage") || str_contains(l, ".deb") {
        "linux"
    } else {
        proof {
            reveal_strlit("");
        }
        return (str_to_string(""), str_to_string(""));
    };

    let arch: &str = if str_contains(l, "x64") || str_contains(l, "x86_64") || str_contains(
        l,
        "amd64",
    ) {
        "x86_64"
    } else if str_contains(l, "arm64") || str_contains(l, "aarch64") {
        "aarch64"
    } else if str_contains(l, "x86") || str_contains(l, "i386") {
        "i686"
    } else {
        "x86_64"
    };

    proof {
        reveal_strlit("windows");
        reveal_strlit("darwin");
        reveal_strlit("linux");
    }
    (str_to_string(platform), str_to_string(arch))
}

} // verus!
