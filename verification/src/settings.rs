//! Reading debug settings: on/off flags and small decimal numbers, from the
//! text of an environment variable or a system property. Looking the
//! setting up is left to the caller; this module decides what the text means.

use vstd::prelude::*;
use vstd::string::StrSliceExecFns;
use crate::text::str_equal;

verus! {

/// The texts that switch a flag off, empty text included.
pub open spec fn is_off_text(v: Seq<char>) -> bool {
    v == "0"@ || v == "false"@ || v == "FALSE"@ || v == "no"@ || v == "NO"@ || v == ""@
}

/// The texts that switch an environment-only flag off (the empty text does not).
pub open spec fn is_off_text_nonempty(v: Seq<char>) -> bool {
    v == "0"@ || v == "false"@ || v == "FALSE"@ || v == "no"@ || v == "NO"@
}

/// The value of a flag whose setting reads `value`: off for the off texts,
/// on for any other text, `default` when the setting is absent.
pub fn setting_flag(value: Option<&str>, default: bool) -> (r: bool)
    ensures
        r == match value {
            Some(v) => !is_off_text(v@),
            None => default,
        },
{
    match value {
        Some(v) => !(str_equal(v, "0") || str_equal(v, "false") || str_equal(v, "FALSE")
            || str_equal(v, "no") || str_equal(v, "NO") || str_equal(v, "")),
        None => default,
    }
}

/// The value of an environment flag whose variable reads `value`: off for
/// "0", "false", "FALSE", "no" and "NO", on for any other text, and off when
/// the variable is absent.
pub fn env_flag(value: Option<&str>) -> (r: bool)
    ensures
        r == match value {
            Some(v) => !is_off_text_nonempty(v@),
            None => false,
        },
{
    match value {
        Some(v) => !(str_equal(v, "0") || str_equal(v, "false") || str_equal(v, "FALSE")
            || str_equal(v, "no") || str_equal(v, "NO")),
        None => false,
    }
}

/// Whether `c` is an ASCII decimal digit.
pub open spec fn is_digit(c: char) -> bool {
    '0' <= c <= '9'
}

/// Value of the decimal digits `d[0..n]`.
pub open spec fn decimal_value(d: Seq<char>, n: int) -> nat
    decreases n,
{
    if n <= 0 {
        0
    } else {
        decimal_value(d, n - 1) * 10 + ((d[n - 1] as u32) - ('0' as u32)) as nat
    }
}

/// The digits of `s` once an optional leading '+' is dropped.
pub open spec fn digits_of(s: Seq<char>) -> Seq<char> {
    if s.len() > 0 && s[0] == '+' {
        s.drop_first()
    } else {
        s
    }
}

/// What parsing `s` as an unsigned number no larger than `max` gives, as
/// std's `from_str` for unsigned integers does: an optional '+', then one or
/// more decimal digits whose value fits.
pub open spec fn parse_unsigned(s: Seq<char>, max: u64) -> Option<u64> {
    let d = digits_of(s);
    if d.len() > 0 && (forall|i: int| 0 <= i < d.len() ==> is_digit(#[trigger] d[i]))
        && decimal_value(d, d.len() as int) <= max {
        Some(decimal_value(d, d.len() as int) as u64)
    } else {
        None
    }
}

proof fn lemma_decimal_monotone(d: Seq<char>, m: int, n: int)
    requires
        0 <= m <= n <= d.len(),
        forall|i: int| 0 <= i < d.len() ==> is_digit(#[trigger] d[i]),
    ensures
        decimal_value(d, m) <= decimal_value(d, n),
    decreases n - m,
{
    if m < n {
        lemma_decimal_monotone(d, m, n - 1);
    }
}

/// Parses `s` as an unsigned decimal number no larger than `max`.
pub fn parse_unsigned_text(s: &str, max: u64) -> (r: Option<u64>)
    ensures
        r == parse_unsigned(s@, max),
{
    let len = s.unicode_len();
    let mut start: usize = 0;
    if len > 0 && s.get_char(0) == '+' {
        start = 1;
    }
    let ghost d = digits_of(s@);
    assert(d =~= s@.subrange(start as int, len as int));
    if start == len {
        return None;
    }
    let mut value: u64 = 0;
    let mut i: usize = start;
    while i < len
        invariant
            len == s@.len(),
            start <= i <= len,
            d == s@.subrange(start as int, len as int),
            d == digits_of(s@),
            forall|j: int| 0 <= j < i - start ==> is_digit(#[trigger] d[j]),
            value == decimal_value(d, i - start),
            value <= max,
        decreases len - i,
    {
        let c = s.get_char(i);
        assert(d[i - start] == c);
        if !('0' <= c && c <= '9') {
            assert(!is_digit(d[i - start]));
            assert(!(forall|j: int| 0 <= j < d.len() ==> is_digit(#[trigger] d[j])));
            return None;
        }
        let digit = (c as u32 - '0' as u32) as u64;
        let next = match value.checked_mul(10) {
            Some(t) => t.checked_add(digit),
            None => None,
        };
        match next {
            Some(v) => {
                assert(v == decimal_value(d, i - start + 1));
                if v > max {
                    proof {
                        if forall|j: int| 0 <= j < d.len() ==> is_digit(#[trigger] d[j]) {
                            lemma_decimal_monotone(d, i - start + 1, d.len() as int);
                        }
                    }
                    return None;
                }
                value = v;
            },
            None => {
                proof {
                    if forall|j: int| 0 <= j < d.len() ==> is_digit(#[trigger] d[j]) {
                        lemma_decimal_monotone(d, i - start + 1, d.len() as int);
                    }
                }
                return None;
            },
        }
        i = i + 1;
    }
    Some(value)
}

/// Default depth of the native presenter's buffer ring.
pub const DEFAULT_RING_DEPTH: usize = 3;

/// `v` clamped to `lo..=hi`.
pub open spec fn clamp(v: int, lo: int, hi: int) -> int {
    if v < lo {
        lo
    } else if v > hi {
        hi
    } else {
        v
    }
}

/// Depth of the native presenter's buffer ring for a setting that reads
/// `value`: the number it holds, 3 when absent or not a number, clamped to
/// 2 to 4.
pub fn ring_depth_from_setting(value: Option<&str>) -> (r: usize)
    ensures
        r == clamp(
            match value {
                Some(v) => match parse_unsigned(v@, usize::MAX as u64) {
                    Some(n) => n as int,
                    None => 3,
                },
                None => 3,
            },
            2,
            4,
        ),
        2 <= r <= 4,
{
    let n: u64 = match value {
        Some(v) => match parse_unsigned_text(v, usize::MAX as u64) {
            Some(n) => n,
            None => 3,
        },
        None => 3,
    };
    if n < 2 {
        2
    } else if n > 4 {
        4
    } else {
        n as usize
    }
}

/// Maximum frame latency of the Android surface for a setting that reads
/// `value`: the number it holds, 2 when absent or not a number, clamped to
/// 1 to 3.
pub fn max_frame_latency_from_setting(value: Option<&str>) -> (r: u32)
    ensures
        r == clamp(
            match value {
                Some(v) => match parse_unsigned(v@, u32::MAX as u64) {
                    Some(n) => n as int,
                    None => 2,
                },
                None => 2,
            },
            1,
            3,
        ),
        1 <= r <= 3,
{
    let n: u64 = match value {
        Some(v) => match parse_unsigned_text(v, u32::MAX as u64) {
            Some(n) => n,
            None => 2,
        },
        None => 2,
    };
    if n < 1 {
        1
    } else if n > 3 {
        3
    } else {
        n as u32
    }
}

/// Surface-ready wait timeout in milliseconds for a setting that reads
/// `value`: the number it holds, 6 when absent or not a number.
pub fn surface_ready_wait_ms_from_setting(value: Option<&str>) -> (r: u64)
    ensures
        r == match value {
            Some(v) => match parse_unsigned(v@, u64::MAX) {
                Some(n) => n,
                None => 6,
            },
            None => 6,
        },
{
    match value {
        Some(v) => match parse_unsigned_text(v, u64::MAX) {
            Some(n) => n,
            None => 6,
        },
        None => 6,
    }
}

/// Present mode of the Android surface.
#[derive(Debug, Clone, Copy, PartialEq, Eq, Structural)]
pub enum PresentModeChoice {
    Fifo,
    Immediate,
    Mailbox,
}

/// Whether `c` equals the lower-case ASCII character `lower`, ignoring ASCII case.
pub open spec fn char_eq_ignore_case(c: char, lower: char) -> bool {
    c == lower || ('a' <= lower <= 'z' && c as u32 + 32 == lower as u32)
}

/// Whether `s` reads `lower` (all lower-case ASCII), ignoring ASCII case.
pub open spec fn text_eq_ignore_case(s: Seq<char>, lower: Seq<char>) -> bool {
    s.len() == lower.len() && forall|i: int| 0 <= i < s.len() ==> char_eq_ignore_case(#[trigger] s[i], lower[i])
}

fn eq_ignore_case(s: &str, lower: &str) -> (r: bool)
    ensures
        r == text_eq_ignore_case(s@, lower@),
{
    let n = s.unicode_len();
    if n != lower.unicode_len() {
        return false;
    }
    let mut i: usize = 0;
    while i < n
        invariant
            n == s@.len(),
            n == lower@.len(),
            0 <= i <= n,
            forall|j: int| 0 <= j < i ==> char_eq_ignore_case(#[trigger] s@[j], lower@[j]),
        decreases n - i,
    {
        let c = s.get_char(i);
        let l = lower.get_char(i);
        let same = c == l || ('a' <= l && l <= 'z' && (c as u32) + 32 == (l as u32));
        if !same {
            return false;
        }
        i = i + 1;
    }
    true
}

/// The present mode for a setting that reads `value`: "fifo" and
/// "immediate" in any ASCII case select those modes; anything else, and an
/// absent setting, selects mailbox.
pub fn present_mode_from_setting(value: Option<&str>) -> (r: PresentModeChoice)
    ensures
        r == match value {
            Some(v) => if text_eq_ignore_case(v@, "fifo"@) {
                PresentModeChoice::Fifo
            } else if text_eq_ignore_case(v@, "immediate"@) {
                PresentModeChoice::Immediate
            } else {
                PresentModeChoice::Mailbox
            },
            None => PresentModeChoice::Mailbox,
        },
{
    match value {
        Some(v) => {
            if eq_ignore_case(v, "fifo") {
                PresentModeChoice::Fifo
            } else if eq_ignore_case(v, "immediate") {
                PresentModeChoice::Immediate
            } else {
                PresentModeChoice::Mailbox
            }
        },
        None => PresentModeChoice::Mailbox,
    }
}

} // verus!
