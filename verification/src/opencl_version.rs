//! The capability model's version parser: device version strings of the form
//! `"OpenCL <major>.<minor>[ <extras>]"` are mapped to an ordered enumeration.
use vstd::prelude::*;

use core::cmp::Ordering;

verus! {

/// The versions of the compute API this library distinguishes. Anything
/// beyond the newest saturates to it.
#[derive(Debug, Clone, Copy, PartialEq, Eq, Structural)]
pub enum OpenCLVersion {
    V1_0,
    V1_1,
    V1_2,
    V2_0,
    V2_1,
    V2_2,
    V3_0,
}

/// Position of a version in the total order.
pub open spec fn version_rank(v: OpenCLVersion) -> int {
    match v {
        OpenCLVersion::V1_0 => 0,
        OpenCLVersion::V1_1 => 1,
        OpenCLVersion::V1_2 => 2,
        OpenCLVersion::V2_0 => 3,
        OpenCLVersion::V2_1 => 4,
        OpenCLVersion::V2_2 => 5,
        OpenCLVersion::V3_0 => 6,
    }
}

/// A decimal digit.
pub open spec fn spec_is_digit(c: char) -> bool {
    48 <= c as int && c as int <= 57
}

/// The numeric value of one digit.
pub open spec fn digit_val(c: char) -> nat {
    (c as int - 48) as nat
}

/// Every character of the sequence is a decimal digit.
pub open spec fn all_digits(s: Seq<char>) -> bool {
    forall|i: int| 0 <= i < s.len() ==> spec_is_digit(#[trigger] s[i])
}

/// The number a digit sequence denotes, most significant digit first.
pub open spec fn digits_val(s: Seq<char>) -> nat
    decreases s.len(),
{
    if s.len() == 0 {
        0
    } else {
        digits_val(s.drop_last()) * 10 + digit_val(s.last())
    }
}

/// What `u32` parsing yields on the sequence: a value for a nonempty run of
/// digits that fits, nothing otherwise.
pub open spec fn parse_u32_digits(s: Seq<char>) -> Option<u32> {
    if s.len() > 0 && all_digits(s) && digits_val(s) <= u32::MAX {
        Some(digits_val(s) as u32)
    } else {
        None
    }
}

/// First position at or after `i` that holds something other than a space.
pub open spec fn scan_non_space(s: Seq<char>, i: int) -> int
    recommends
        0 <= i <= s.len(),
    decreases s.len() - i,
    when 0 <= i <= s.len()
{
    if i >= s.len() {
        i
    } else if s[i] == ' ' {
        scan_non_space(s, i + 1)
    } else {
        i
    }
}

/// First position at or after `i` that holds a space, or the end.
pub open spec fn scan_space(s: Seq<char>, i: int) -> int
    recommends
        0 <= i <= s.len(),
    decreases s.len() - i,
    when 0 <= i <= s.len()
{
    if i >= s.len() {
        i
    } else if s[i] == ' ' {
        i
    } else {
        scan_space(s, i + 1)
    }
}

/// First position at or after `i` that holds a dot or a space, or the end.
pub open spec fn scan_break(s: Seq<char>, i: int) -> int
    recommends
        0 <= i <= s.len(),
    decreases s.len() - i,
    when 0 <= i <= s.len()
{
    if i >= s.len() {
        i
    } else if s[i] == '.' || s[i] == ' ' {
        i
    } else {
        scan_break(s, i + 1)
    }
}

/// The string opens with the API prefix and a space.
pub open spec fn prefix_ok(s: Seq<char>) -> bool {
    s.len() >= 7 && s.subrange(0, 7) == "OpenCL "@
}

/// The version a major/minor pair denotes. Pairs beyond the newest version
/// saturate to it; pairs outside the enumeration parse to nothing.
pub open spec fn version_from_pair(major: u32, minor: u32) -> Option<OpenCLVersion> {
    if major == 1 && minor == 0 {
        Some(OpenCLVersion::V1_0)
    } else if major == 1 && minor == 1 {
        Some(OpenCLVersion::V1_1)
    } else if major == 1 && minor == 2 {
        Some(OpenCLVersion::V1_2)
    } else if major == 2 && minor == 0 {
        Some(OpenCLVersion::V2_0)
    } else if major == 2 && minor == 1 {
        Some(OpenCLVersion::V2_1)
    } else if major == 2 && minor == 2 {
        Some(OpenCLVersion::V2_2)
    } else if major == 3 && minor == 0 {
        Some(OpenCLVersion::V3_0)
    } else if major > 3 || (major == 3 && minor > 0) {
        Some(OpenCLVersion::V3_0)
    } else {
        None
    }
}

/// What parsing a whole version string yields: the prefix, then the second
/// space-separated token read as `<major>[.<minor>[...]]` with the minor
/// defaulting to zero.
pub open spec fn version_of(s: Seq<char>) -> Option<OpenCLVersion> {
    if !prefix_ok(s) {
        None
    } else {
        let ts: int = scan_non_space(s, 7);
        let te: int = scan_space(s, ts);
        if ts == te {
            None
        } else {
            let d1: int = scan_break(s, ts);
            match parse_u32_digits(s.subrange(ts, d1)) {
                Option::None => None,
                Option::Some(major) => {
                    if d1 == te {
                        version_from_pair(major, 0)
                    } else {
                        let d2: int = scan_break(s, d1 + 1);
                        match parse_u32_digits(s.subrange(d1 + 1, d2)) {
                            Option::None => None,
                            Option::Some(minor) => version_from_pair(major, minor),
                        }
                    }
                },
            }
        }
    }
}

/// A longer run of digits never denotes a smaller number.
proof fn lemma_digits_val_take_monotone(t: Seq<char>, k: int, m: int)
    requires
        0 <= k <= m <= t.len(),
    ensures
        digits_val(t.take(k)) <= digits_val(t.take(m)),
    decreases m - k,
{
    if k < m {
        lemma_digits_val_take_monotone(t, k, m - 1);
        assert(t.take(m).drop_last() =~= t.take(m - 1));
        assert(digits_val(t.take(m)) == digits_val(t.take(m - 1)) * 10 + digit_val(t.take(m).last()));
    }
}

/// Scanning positions stay within the string and past the start.
proof fn lemma_scan_bounds(s: Seq<char>, i: int)
    requires
        0 <= i <= s.len(),
    ensures
        i <= scan_non_space(s, i) <= s.len(),
        i <= scan_space(s, i) <= s.len(),
        i <= scan_break(s, i) <= s.len(),
    decreases s.len() - i,
{
    if i < s.len() {
        lemma_scan_bounds(s, i + 1);
    }
}

/// A dot or a space is never later than the next space alone.
proof fn lemma_break_before_space(s: Seq<char>, i: int)
    requires
        0 <= i <= s.len(),
    ensures
        scan_break(s, i) <= scan_space(s, i),
        scan_break(s, i) < scan_space(s, i) ==> s[scan_break(s, i)] == '.',
    decreases s.len() - i,
{
    lemma_scan_bounds(s, i);
    if i < s.len() && s[i] != '.' && s[i] != ' ' {
        lemma_scan_bounds(s, i + 1);
        lemma_break_before_space(s, i + 1);
    }
}

fn exec_scan_non_space(s: &str, i: usize) -> (r: usize)
    requires
        i <= s@.len(),
    ensures
        r == scan_non_space(s@, i as int),
        i <= r <= s@.len(),
    decreases s@.len() - i,
{
    proof {
        lemma_scan_bounds(s@, i as int);
    }
    let n: usize = s.unicode_len();
    if i < n {
        if s.get_char(i) == ' ' {
            return exec_scan_non_space(s, i + 1);
        }
    }
    i
}

fn exec_scan_space(s: &str, i: usize) -> (r: usize)
    requires
        i <= s@.len(),
    ensures
        r == scan_space(s@, i as int),
        i <= r <= s@.len(),
    decreases s@.len() - i,
{
    proof {
        lemma_scan_bounds(s@, i as int);
    }
    let n: usize = s.unicode_len();
    if i < n {
        if s.get_char(i) != ' ' {
            return exec_scan_space(s, i + 1);
        }
    }
    i
}

fn exec_scan_break(s: &str, i: usize) -> (r: usize)
    requires
        i <= s@.len(),
    ensures
        r == scan_break(s@, i as int),
        i <= r <= s@.len(),
    decreases s@.len() - i,
{
    proof {
        lemma_scan_bounds(s@, i as int);
    }
    let n: usize = s.unicode_len();
    if i < n {
        let c = s.get_char(i);
        if c != '.' && c != ' ' {
            return exec_scan_break(s, i + 1);
        }
    }
    i
}

/// Reads the digit run `s[from..to]` as a `u32`, as `parse_u32_digits` says.
fn exec_parse_digits(s: &str, from: usize, to: usize) -> (r: Option<u32>)
    requires
        from <= to <= s@.len(),
    ensures
        r == parse_u32_digits(s@.subrange(from as int, to as int)),
{
    if from == to {
        return None;
    }
    let mut v: u64 = 0;
    let mut i: usize = from;
    while i < to
        invariant
            from <= i <= to <= s@.len(),
            all_digits(s@.subrange(from as int, i as int)),
            v == digits_val(s@.subrange(from as int, i as int)),
            v <= u32::MAX,
        decreases to - i,
    {
        let c = s.get_char(i);
        let cu: u32 = c as u32;
        if cu < 48 || cu > 57 {
            proof {
                assert(s@.subrange(from as int, to as int)[i - from] == c);
            }
            return None;
        }
        let d: u64 = (cu - 48) as u64;
        v = v * 10 + d;
        proof {
            let t = s@.subrange(from as int, to as int);
            assert(s@.subrange(from as int, (i + 1) as int).drop_last() =~= s@.subrange(
                from as int,
                i as int,
            ));
            assert(s@.subrange(from as int, (i + 1) as int).last() == c);
        }
        if v > 0xFFFF_FFFF {
            proof {
                let t = s@.subrange(from as int, to as int);
                lemma_digits_val_take_monotone(t, i + 1 - from, to - from);
                assert(t.take(i + 1 - from) =~= s@.subrange(from as int, (i + 1) as int));
                assert(t.take(to - from) =~= t);
            }
            return None;
        }
        i = i + 1;
    }
    proof {
        assert(s@.subrange(from as int, to as int) =~= s@.subrange(from as int, i as int));
    }
    Some(v as u32)
}

/// Picks the version a major/minor pair denotes, per `version_from_pair`.
fn exec_version_from_pair(major: u32, minor: u32) -> (r: Option<OpenCLVersion>)
    ensures
        r == version_from_pair(major, minor),
{
    if major == 1 && minor == 0 {
        Some(OpenCLVersion::V1_0)
    } else if major == 1 && minor == 1 {
        Some(OpenCLVersion::V1_1)
    } else if major == 1 && minor == 2 {
        Some(OpenCLVersion::V1_2)
    } else if major == 2 && minor == 0 {
        Some(OpenCLVersion::V2_0)
    } else if major == 2 && minor == 1 {
        Some(OpenCLVersion::V2_1)
    } else if major == 2 && minor == 2 {
        Some(OpenCLVersion::V2_2)
    } else if major == 3 && minor == 0 {
        Some(OpenCLVersion::V3_0)
    } else if major > 3 || (major == 3 && minor > 0) {
        Some(OpenCLVersion::V3_0)
    } else {
        None
    }
}

impl OpenCLVersion {
    /// Position of this version in the total order.
    pub fn rank(&self) -> (r: u8)
        ensures
            r as int == version_rank(*self),
    {
        match self {
            OpenCLVersion::V1_0 => 0,
            OpenCLVersion::V1_1 => 1,
            OpenCLVersion::V1_2 => 2,
            OpenCLVersion::V2_0 => 3,
            OpenCLVersion::V2_1 => 4,
            OpenCLVersion::V2_2 => 5,
            OpenCLVersion::V3_0 => 6,
        }
    }

    /// Parses a device version string, as `version_of` says: the `"OpenCL "`
    /// prefix, then the second space-separated token as major and minor.
    pub fn parse(s: &str) -> (r: Option<OpenCLVersion>)
        ensures
            r == version_of(s@),
    {
        proof {
            reveal_strlit("OpenCL ");
        }
        let n: usize = s.unicode_len();
        if n < 7 {
            return None;
        }
        let ok = s.get_char(0) == 'O' && s.get_char(1) == 'p' && s.get_char(2) == 'e'
            && s.get_char(3) == 'n' && s.get_char(4) == 'C' && s.get_char(5) == 'L' && s.get_char(
            6,
        ) == ' ';
        if !ok {
            proof {
                if prefix_ok(s@) {
                    let p = s@.subrange(0, 7);
                    assert(p[0] == s@[0] && p[1] == s@[1] && p[2] == s@[2] && p[3] == s@[3] && p[4]
                        == s@[4] && p[5] == s@[5] && p[6] == s@[6]);
                }
            }
            return None;
        }
        proof {
            assert(s@.subrange(0, 7) =~= "OpenCL "@);
        }
        let ts: usize = exec_scan_non_space(s, 7);
        let te: usize = exec_scan_space(s, ts);
        if ts == te {
            return None;
        }
        let d1: usize = exec_scan_break(s, ts);
        proof {
            lemma_break_before_space(s@, ts as int);
        }
        let major = match exec_parse_digits(s, ts, d1) {
            Option::Some(m) => m,
            Option::None => {
                return None;
            },
        };
        if d1 == te {
            exec_version_from_pair(major, 0)
        } else {
            let d2: usize = exec_scan_break(s, d1 + 1);
            proof {
                lemma_break_before_space(s@, ts as int);
            }
            let minor = match exec_parse_digits(s, d1 + 1, d2) {
                Option::Some(m) => m,
                Option::None => {
                    return None;
                },
            };
            exec_version_from_pair(major, minor)
        }
    }
}

impl PartialOrd for OpenCLVersion {
    /// Versions compare by their position in the enumeration.
    fn partial_cmp(&self, other: &OpenCLVersion) -> (r: Option<Ordering>) {
        let a: u8 = self.rank();
        let b: u8 = other.rank();
        if a < b {
            Some(Ordering::Less)
        } else if a == b {
            Some(Ordering::Equal)
        } else {
            Some(Ordering::Greater)
        }
    }
}

impl vstd::std_specs::cmp::PartialOrdSpecImpl for OpenCLVersion {
    open spec fn obeys_partial_cmp_spec() -> bool {
        true
    }

    open spec fn partial_cmp_spec(&self, other: &OpenCLVersion) -> Option<Ordering> {
        if version_rank(*self) < version_rank(*other) {
            Some(Ordering::Less)
        } else if version_rank(*self) == version_rank(*other) {
            Some(Ordering::Equal)
        } else {
            Some(Ordering::Greater)
        }
    }
}

} // verus!

