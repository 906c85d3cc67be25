//! Release-version comparison for the update check.
//!
//! A release tag such as `v1.2.3` is compared against the currently
//! installed version. The tag counts as newer exactly when it has the same
//! number of dot-separated components, no component is smaller than its
//! counterpart, and at least one is strictly greater.

use vstd::prelude::*;
use vstd::seq_lib::*;

verus! {

/// Characters that count as blank padding around a version component.
pub open spec fn is_blank(c: char) -> bool {
    c == ' ' || c == '\t' || c == '\n' || c == '\r' || c == '\u{b}' || c == '\u{c}'
}

/// An ASCII decimal digit.
pub open spec fn is_digit(c: char) -> bool {
    '0' <= c <= '9'
}

/// Numeric value of a digit character.
pub open spec fn digit_value(c: char) -> int {
    c as int - '0' as int
}

/// All characters of `s` are ASCII decimal digits.
pub open spec fn all_digits(s: Seq<char>) -> bool {
    forall|i: int| 0 <= i < s.len() ==> is_digit(#[trigger] s[i])
}

/// Value of a digit string read in base ten.
pub open spec fn digits_value(s: Seq<char>) -> int
    decreases s.len(),
{
    if s.len() == 0 {
        0
    } else {
        digits_value(s.drop_last()) * 10 + digit_value(s.last())
    }
}

/// `s` with leading blanks removed.
pub open spec fn trim_front(s: Seq<char>) -> Seq<char>
    decreases s.len(),
{
    if s.len() > 0 && is_blank(s[0]) {
        trim_front(s.skip(1))
    } else {
        s
    }
}

/// `s` with trailing blanks removed.
pub open spec fn trim_back(s: Seq<char>) -> Seq<char>
    decreases s.len(),
{
    if s.len() > 0 && is_blank(s.last()) {
        trim_back(s.drop_last())
    } else {
        s
    }
}

/// `s` with blanks removed from both ends.
pub open spec fn trimmed(s: Seq<char>) -> Seq<char> {
    trim_back(trim_front(s))
}

/// The number a version component stands for: an optional sign followed by
/// digits, evaluated when the value fits a 32-bit signed integer; any
/// malformed or out-of-range component counts as zero.
pub open spec fn component_value(s: Seq<char>) -> int {
    let t = trimmed(s);
    let body = if t.len() > 0 && (t[0] == '+' || t[0] == '-') {
        t.skip(1)
    } else {
        t
    };
    let negative = t.len() > 0 && t[0] == '-';
    if body.len() > 0 && all_digits(body) {
        let magnitude = digits_value(body);
        if negative && magnitude <= 0x8000_0000 {
            -magnitude
        } else if !negative && magnitude <= 0x7fff_ffff {
            magnitude
        } else {
            0
        }
    } else {
        0
    }
}

/// Index of the first `.` in `s`, or `-1` when there is none.
pub open spec fn first_dot(s: Seq<char>) -> int
    decreases s.len(),
{
    if s.len() == 0 {
        -1
    } else if s[0] == '.' {
        0
    } else if first_dot(s.skip(1)) == -1 {
        -1
    } else {
        first_dot(s.skip(1)) + 1
    }
}

/// `first_dot` finds the first dot: nothing before it is a dot, and `-1`
/// means there is no dot at all.
pub proof fn lemma_first_dot(s: Seq<char>)
    ensures
        first_dot(s) == -1 ==> forall|i: int| 0 <= i < s.len() ==> s[i] != '.',
        first_dot(s) != -1 ==> 0 <= first_dot(s) < s.len() && s[first_dot(s)] == '.' && forall|
            i: int,
        | 0 <= i < first_dot(s) ==> s[i] != '.',
    decreases s.len(),
{
    if s.len() > 0 && s[0] != '.' {
        lemma_first_dot(s.skip(1));
        assert(forall|i: int| 1 <= i < s.len() ==> s[i] == s.skip(1)[i - 1]);
    }
}

/// `s` split on every `.`; a string with no dot is a single component.
pub open spec fn dot_split(s: Seq<char>) -> Seq<Seq<char>>
    decreases s.len(),
    via dot_split_decreases
{
    if first_dot(s) == -1 {
        seq![s]
    } else {
        seq![s.take(first_dot(s))] + dot_split(s.skip(first_dot(s) + 1))
    }
}

#[via_fn]
proof fn dot_split_decreases(s: Seq<char>) {
    lemma_first_dot(s);
}

/// `s` with every leading `v` removed.
pub open spec fn strip_v(s: Seq<char>) -> Seq<char>
    decreases s.len(),
{
    if s.len() > 0 && s[0] == 'v' {
        strip_v(s.skip(1))
    } else {
        s
    }
}

/// The numeric components a release tag stands for.
pub open spec fn tag_components(s: Seq<char>) -> Seq<int> {
    dot_split(strip_v(s)).map_values(|c: Seq<char>| component_value(c))
}

/// A release with components `rel` is newer than a version with components
/// `cur` exactly when both have the same number of components, some
/// component is strictly greater, and none is smaller.
pub open spec fn newer(rel: Seq<int>, cur: Seq<int>) -> bool {
    &&& rel.len() == cur.len()
    &&& exists|i: int| 0 <= i < rel.len() && rel[i] > cur[i]
    &&& forall|i: int| 0 <= i < rel.len() ==> #[trigger] rel[i] >= cur[i]
}

/// The value of a digit string is never negative.
proof fn lemma_digits_nonneg(s: Seq<char>)
    requires
        all_digits(s),
    ensures
        digits_value(s) >= 0,
    decreases s.len(),
{
    if s.len() > 0 {
        lemma_digits_nonneg(s.drop_last());
    }
}

/// Reading further digits can only grow the value.
proof fn lemma_digits_prefix(s: Seq<char>, k: int)
    requires
        all_digits(s),
        0 <= k <= s.len(),
    ensures
        digits_value(s.take(k)) <= digits_value(s),
    decreases s.len() - k,
{
    if k == s.len() {
        assert(s.take(k) =~= s);
    } else {
        lemma_digits_prefix(s, k + 1);
        let t = s.take(k + 1);
        assert(t.drop_last() =~= s.take(k));
        lemma_digits_nonneg(s.take(k));
        assert(digits_value(t) == digits_value(s.take(k)) * 10 + digit_value(s[k]));
    }
}

/// If everything before `q` is not a dot, `first_dot` is `q` (or `-1` when
/// the scan ran off the end).
proof fn lemma_first_dot_at(s: Seq<char>, q: int)
    requires
        0 <= q <= s.len(),
        forall|i: int| 0 <= i < q ==> s[i] != '.',
        q < s.len() ==> s[q] == '.',
    ensures
        q == s.len() ==> first_dot(s) == -1,
        q < s.len() ==> first_dot(s) == q,
    decreases q,
{
    if q > 0 {
        lemma_first_dot_at(s.skip(1), q - 1);
        assert(forall|i: int| 0 <= i < s.skip(1).len() ==> s.skip(1)[i] == s[i + 1]);
    }
}

/// Parses the characters of `s` from position `a` up to `b` as one version
/// component.
#[verifier::loop_isolation(false)]
fn parse_component(s: &str, a: usize, b: usize) -> (v: i32)
    requires
        a <= b <= s@.len(),
    ensures
        v as int == component_value(s@.subrange(a as int, b as int)),
{
    let ghost orig = s@.subrange(a as int, b as int);
    // Trim blanks off the front.
    let mut lo = a;
    while lo < b && is_blank_exec(s.get_char(lo))
        invariant
            a <= lo <= b <= s@.len(),
            trim_front(orig) == trim_front(s@.subrange(lo as int, b as int)),
        decreases b - lo,
    {
        proof {
            assert(s@.subrange(lo as int, b as int).skip(1) =~= s@.subrange(
                lo as int + 1,
                b as int,
            ));
        }
        lo = lo + 1;
    }
    proof {
        assert(trim_front(orig) == s@.subrange(lo as int, b as int));
    }
    // Trim blanks off the back.
    let mut hi = b;
    while hi > lo && is_blank_exec(s.get_char(hi - 1))
        invariant
            a <= lo <= hi <= b <= s@.len(),
            trim_front(orig) == s@.subrange(lo as int, b as int),
            trim_back(s@.subrange(lo as int, b as int)) == trim_back(
                s@.subrange(lo as int, hi as int),
            ),
        decreases hi,
    {
        proof {
            assert(s@.subrange(lo as int, hi as int).drop_last() =~= s@.subrange(
                lo as int,
                hi as int - 1,
            ));
        }
        hi = hi - 1;
    }
    let ghost t = s@.subrange(lo as int, hi as int);
    proof {
        assert(trimmed(orig) == t);
    }
    // Optional sign.
    let mut body_lo = lo;
    let mut negative = false;
    if lo < hi {
        let c = s.get_char(lo);
        if c == '+' || c == '-' {
            body_lo = lo + 1;
            negative = c == '-';
        }
    }
    let ghost body = s@.subrange(body_lo as int, hi as int);
    proof {
        if t.len() > 0 && (t[0] == '+' || t[0] == '-') {
            assert(t.skip(1) =~= body);
        } else {
            assert(t =~= body);
        }
    }
    if body_lo == hi {
        // No digits at all.
        return 0;
    }
    // Accumulate the digits.
    let mut acc: u64 = 0;
    let mut j = body_lo;
    while j < hi
        invariant
            body_lo <= j <= hi <= s@.len(),
            body == s@.subrange(body_lo as int, hi as int),
            all_digits(body.take(j - body_lo)),
            acc == digits_value(body.take(j - body_lo)),
            acc <= 0x8000_0000,
        decreases hi - j,
    {
        let c = s.get_char(j);
        if !(c >= '0' && c <= '9') {
            // A stray character makes the whole component count as zero.
            proof {
                assert(body[j - body_lo] == s@[j as int]);
                assert(!is_digit(body[j - body_lo]));
            }
            return 0;
        }
        let d: u64 = (c as u32 as u64) - 48;
        proof {
            assert(body.take(j - body_lo + 1).drop_last() =~= body.take(j - body_lo));
            assert(body.take(j - body_lo + 1).last() == body[j - body_lo]);
        }
        acc = acc * 10 + d;
        j = j + 1;
        if acc > 0x8000_0000 {
            // Out of range for a 32-bit value, whatever follows.
            proof {
                if all_digits(body) {
                    lemma_digits_prefix(body, j - body_lo);
                }
            }
            return 0;
        }
    }
    proof {
        assert(body.take(hi - body_lo) =~= body);
    }
    if negative {
        if acc == 0x8000_0000 {
            i32::MIN
        } else {
            -(acc as i32)
        }
    } else {
        if acc == 0x8000_0000 {
            0
        } else {
            acc as i32
        }
    }
}

/// Executable test for blank padding characters.
fn is_blank_exec(c: char) -> (r: bool)
    ensures
        r == is_blank(c),
{
    c == ' ' || c == '\t' || c == '\n' || c == '\r' || c == '\u{b}' || c == '\u{c}'
}

/// Splits a release tag into its numeric components.
#[verifier::loop_isolation(false)]
pub fn tag_components_exec(release: &str) -> (comps: Vec<i32>)
    ensures
        comps@.map_values(|x: i32| x as int) == tag_components(release@),
{
    let n = release.unicode_len();
    // Strip every leading `v`.
    let mut start: usize = 0;
    proof {
        assert(release@.skip(0) =~= release@);
    }
    while start < n && release.get_char(start) == 'v'
        invariant
            0 <= start <= n == release@.len(),
            strip_v(release@) == strip_v(release@.skip(start as int)),
        decreases n - start,
    {
        proof {
            assert(release@.skip(start as int).skip(1) =~= release@.skip(start as int + 1));
        }
        start = start + 1;
    }
    let ghost stripped = release@.skip(start as int);
    proof {
        assert(strip_v(release@) == stripped);
    }
    let mut comps: Vec<i32> = Vec::new();
    let mut p = start;
    proof {
        let mapped = dot_split(stripped).map_values(|c: Seq<char>| component_value(c));
        assert(comps@.map_values(|x: i32| x as int) + mapped =~= mapped);
    }
    let mut done = false;
    while !done
        invariant
            start <= p <= n == release@.len(),
            !done ==> tag_components(release@) == comps@.map_values(|x: i32| x as int)
                + dot_split(release@.skip(p as int)).map_values(|c: Seq<char>| component_value(c)),
            done ==> comps@.map_values(|x: i32| x as int) == tag_components(release@),
        decreases n - p + (if done { 0int } else { 1int }),
    {
        // Scan for the next dot.
        let mut q = p;
        while q < n && release.get_char(q) != '.'
            invariant
                p <= q <= n == release@.len(),
                forall|i: int| p <= i < q ==> release@[i] != '.',
            decreases n - q,
        {
            q = q + 1;
        }
        let ghost rest = release@.skip(p as int);
        proof {
            assert(forall|i: int| 0 <= i < rest.len() ==> rest[i] == release@[i + p]);
            lemma_first_dot_at(rest, q - p);
        }
        let v = parse_component(release, p, q);
        proof {
            assert(rest.take(q - p) =~= release@.subrange(p as int, q as int));
        }
        comps.push(v);
        if q == n {
            proof {
                assert(dot_split(rest) == seq![rest.take(q - p)]);
                assert(comps@.map_values(|x: i32| x as int) =~= comps@.drop_last().map_values(
                    |x: i32| x as int,
                ).push(v as int));
            }
            done = true;
        } else {
            proof {
            assert(dot_split(rest) == seq![rest.take(q - p)] + dot_split(rest.skip(q - p + 1)));
            assert(rest.skip(q - p + 1) =~= release@.skip(q as int + 1));
            assert(comps@.map_values(|x: i32| x as int) =~= comps@.drop_last().map_values(
                |x: i32| x as int,
            ).push(v as int));
            assert(comps@.map_values(|x: i32| x as int) + dot_split(release@.skip(q as int + 1)).map_values(
                |c: Seq<char>| component_value(c),
            ) =~= comps@.drop_last().map_values(|x: i32| x as int) + dot_split(rest).map_values(
                |c: Seq<char>| component_value(c),
            ));
            }
            p = q + 1;
        }
    }
    comps
}

/// The release tag is strictly newer than the given current version.
pub fn release_is_newer_than_version(release: &str, current: &[i32; 3]) -> (r: bool)
    ensures
        r == newer(tag_components(release@), current@.map_values(|x: i32| x as int)),
{
    let comps = tag_components_exec(release);
    let ghost rel = comps@.map_values(|x: i32| x as int);
    let ghost cur = current@.map_values(|x: i32| x as int);
    if comps.len() != 3 {
        return false;
    }
    let mut any_greater = false;
    let mut none_smaller = true;
    let mut i: usize = 0;
    while i < 3
        invariant
            0 <= i <= 3,
            comps@.len() == 3,
            rel == comps@.map_values(|x: i32| x as int),
            cur == current@.map_values(|x: i32| x as int),
            any_greater == exists|k: int| 0 <= k < i && rel[k] > cur[k],
            none_smaller == forall|k: int| 0 <= k < i ==> #[trigger] rel[k] >= cur[k],
        decreases 3 - i,
    {
        let r = comps[i];
        let c = current[i];
        proof {
            assert(rel[i as int] == r as int);
            assert(cur[i as int] == c as int);
        }
        if r > c {
            any_greater = true;
        }
        if r < c {
            none_smaller = false;
            proof {
                assert(!(rel[i as int] >= cur[i as int]));
            }
        }
        i = i + 1;
    }
    any_greater && none_smaller
}

/// Whether a published release should be installed: drafts and
/// prereleases never, otherwise exactly when its tag is newer than the
/// version this tool carries.
pub fn should_update(tag: &str, draft: bool, prerelease: bool) -> (r: bool)
    ensures
        r == (!draft && !prerelease && newer(tag_components(tag@), seq![0int, 1int, 0int])),
{
    !draft && !prerelease && release_is_newer_than_current(tag)
}

/// The first release asset that is the installer, by its fixed file name.
#[verifier::loop_isolation(false)]
pub fn find_installer_asset(names: &Vec<String>) -> (r: Option<usize>)
    ensures
        match r {
            Some(i) => {
                &&& i < names@.len()
                &&& names@[i as int]@ == "wedge_installer.exe"@
                &&& forall|j: int| 0 <= j < i ==> names@[j]@ != "wedge_installer.exe"@
            },
            None => forall|j: int| 0 <= j < names@.len() ==> names@[j]@ != "wedge_installer.exe"@,
        },
{
    let n = names.len();
    let mut i: usize = 0;
    while i < n
        invariant
            0 <= i <= n,
            forall|j: int| 0 <= j < i ==> names@[j]@ != "wedge_installer.exe"@,
        decreases n - i,
    {
        if crate::text::str_eq(names[i].as_str(), "wedge_installer.exe") {
            return Some(i);
        }
        i = i + 1;
    }
    None
}

/// The release tag is strictly newer than the version this tool carries.
pub fn release_is_newer_than_current(release: &str) -> (r: bool)
    ensures
        r == newer(tag_components(release@), seq![0int, 1int, 0int]),
{
    let current: [i32; 3] = [0, 1, 0];
    let r = release_is_newer_than_version(release, &current);
    proof {
        assert(current@.map_values(|x: i32| x as int) =~= seq![0int, 1int, 0int]);
    }
    r
}

} // verus!
