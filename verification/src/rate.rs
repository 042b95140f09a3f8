//! Frame-rate recovery.
//!
//! The extraction tool reports the source frame rate on its diagnostic
//! stream as a decimal number, a single whitespace byte and the literal
//! token `fps`, as in `29.97 fps`. The resolver returns the explicitly
//! configured rate when there is one and otherwise scans the diagnostic
//! text for the first such report; a text with no report is a hard
//! failure, since the encoder cannot run without a rate.
//!
//! Rates are carried in thousandths of a frame per second. A report with
//! more than three fractional digits is truncated to thousandths, and a
//! value too large for the carrier saturates at `u64::MAX`; both are far
//! outside the encoder's accepted range and are clamped to it later.

use vstd::prelude::*;

use crate::error::PipelineError;

verus! {

/// A frame rate in thousandths of a frame per second: `29_970` reads
/// 29.97 fps.
#[derive(Clone, Copy, PartialEq, Eq, Structural, Debug)]
pub struct FrameRate {
    pub milli: u64,
}

/// An ASCII decimal digit.
pub open spec fn is_digit(b: u8) -> bool {
    '0' as u8 <= b <= '9' as u8
}

/// An ASCII whitespace byte: space, tab, line feed, vertical tab (11),
/// form feed (12) or carriage return.
pub open spec fn is_space(b: u8) -> bool {
    b == ' ' as u8 || b == '\t' as u8 || b == '\n' as u8 || b == 11u8 || b == 12u8
        || b == '\r' as u8
}

/// The end of the run of digits starting at `i`: the first position at or
/// after `i` holding no digit.
pub open spec fn digit_run_end(s: Seq<u8>, i: int) -> int
    decreases s.len() - i,
{
    if i < 0 || i >= s.len() || !is_digit(s[i]) {
        i
    } else {
        digit_run_end(s, i + 1)
    }
}

/// Whether a whitespace byte and the token `fps` stand at `k`.
pub open spec fn tail_matches(s: Seq<u8>, k: int) -> bool {
    &&& 0 <= k
    &&& k + 4 <= s.len()
    &&& is_space(s[k])
    &&& s[k + 1] == 'f' as u8
    &&& s[k + 2] == 'p' as u8
    &&& s[k + 3] == 's' as u8
}

/// Whether a frame-rate report starts at `i`: a digit run, optionally a
/// point and another digit run, then whitespace and `fps`.
pub open spec fn fps_match_at(s: Seq<u8>, i: int) -> bool {
    &&& 0 <= i < s.len()
    &&& is_digit(s[i])
    &&& {
        let j = digit_run_end(s, i);
        ||| tail_matches(s, j)
        ||| (j + 1 < s.len() && s[j] == '.' as u8 && is_digit(s[j + 1]) && tail_matches(
            s,
            digit_run_end(s, j + 1),
        ))
    }
}

/// The first position at or after `i` where a report starts; `s.len()`
/// when there is none.
pub open spec fn first_match_from(s: Seq<u8>, i: int) -> int
    decreases s.len() - i,
{
    if i < 0 || i >= s.len() {
        s.len() as int
    } else if fps_match_at(s, i) {
        i
    } else {
        first_match_from(s, i + 1)
    }
}

/// Whether the text holds a frame-rate report anywhere.
pub open spec fn has_fps_match(s: Seq<u8>) -> bool {
    first_match_from(s, 0) < s.len()
}

/// The value of the decimal digits `s[i..j)`.
pub open spec fn digits_val(s: Seq<u8>, i: int, j: int) -> int
    decreases j - i,
{
    if j <= i {
        0
    } else {
        digits_val(s, i, j - 1) * 10 + (s[j - 1] - '0' as u8)
    }
}

/// The value in thousandths of the fractional digits `s[i..j)`; digits
/// beyond the third are truncated.
pub open spec fn frac_milli_val(s: Seq<u8>, i: int, j: int) -> int {
    if j - i >= 3 {
        (s[i] - '0' as u8) * 100 + (s[i + 1] - '0' as u8) * 10 + (s[i + 2] - '0' as u8)
    } else if j - i == 2 {
        (s[i] - '0' as u8) * 100 + (s[i + 1] - '0' as u8) * 10
    } else if j - i == 1 {
        (s[i] - '0' as u8) * 100
    } else {
        0
    }
}

/// The milli-fps value of the report starting at `i`, unbounded.
pub open spec fn match_value_milli(s: Seq<u8>, i: int) -> int {
    let j = digit_run_end(s, i);
    if tail_matches(s, j) {
        digits_val(s, i, j) * 1000
    } else {
        digits_val(s, i, j) * 1000 + frac_milli_val(s, j + 1, digit_run_end(s, j + 1))
    }
}

/// A nonnegative value capped at `u64::MAX`.
pub open spec fn sat_u64(v: int) -> u64 {
    if v > u64::MAX {
        u64::MAX
    } else {
        v as u64
    }
}

/// The milli-fps value of the first report in `s`, saturating.
pub open spec fn parsed_rate_milli(s: Seq<u8>) -> u64 {
    sat_u64(match_value_milli(s, first_match_from(s, 0)))
}

/// What the resolver returns: the explicit rate when configured, else the
/// first reported rate, else the parse failure.
pub open spec fn resolve_rate_spec(explicit: Option<FrameRate>, d: Seq<u8>) -> Result<
    FrameRate,
    PipelineError,
> {
    match explicit {
        Some(r) => Ok(r),
        None => if has_fps_match(d) {
            Ok(FrameRate { milli: parsed_rate_milli(d) })
        } else {
            Err(PipelineError::RateParse)
        },
    }
}

/// The digit run from `i` ends within the text, covers only digits and
/// stops at a non-digit.
pub proof fn lemma_digit_run_end(s: Seq<u8>, i: int)
    requires
        0 <= i <= s.len(),
    ensures
        i <= digit_run_end(s, i) <= s.len(),
        forall|t: int| i <= t < digit_run_end(s, i) ==> is_digit(s[t]),
        digit_run_end(s, i) < s.len() ==> !is_digit(s[digit_run_end(s, i)]),
    decreases s.len() - i,
{
    if i < s.len() && is_digit(s[i]) {
        lemma_digit_run_end(s, i + 1);
    }
}

/// The value of a digit run is nonnegative.
pub proof fn lemma_digits_val_nonneg(s: Seq<u8>, i: int, j: int)
    requires
        forall|t: int| i <= t < j ==> is_digit(s[t]),
    ensures
        digits_val(s, i, j) >= 0,
    decreases j - i,
{
    if j > i {
        lemma_digits_val_nonneg(s, i, j - 1);
    }
}

/// Law: the resolver's report is the first in the text — the scan never
/// settles on a position while an earlier one also matches.
pub proof fn lemma_first_match_is_first(s: Seq<u8>, i: int)
    requires
        0 <= i <= s.len(),
    ensures
        i <= first_match_from(s, i) <= s.len(),
        first_match_from(s, i) < s.len() ==> fps_match_at(s, first_match_from(s, i)),
        forall|t: int| i <= t < first_match_from(s, i) ==> !fps_match_at(s, t),
    decreases s.len() - i,
{
    if i < s.len() && !fps_match_at(s, i) {
        lemma_first_match_is_first(s, i + 1);
    }
}

/// The end of the digit run starting at `i`.
fn digit_run_end_exec(s: &[u8], i: usize) -> (j: usize)
    requires
        i <= s.len(),
    ensures
        i <= j <= s.len(),
        j as int == digit_run_end(s@, i as int),
{
    let mut j = i;
    while j < s.len() && '0' as u8 <= s[j] && s[j] <= '9' as u8
        invariant
            i <= j <= s@.len(),
            digit_run_end(s@, i as int) == digit_run_end(s@, j as int),
        decreases s@.len() - j,
    {
        j = j + 1;
    }
    j
}

/// Whether a whitespace byte and `fps` stand at `k`.
fn tail_matches_exec(s: &[u8], k: usize) -> (r: bool)
    requires
        k <= s.len(),
    ensures
        r == tail_matches(s@, k as int),
{
    if s.len() - k < 4 {
        return false;
    }
    let b = s[k];
    let space = b == ' ' as u8 || b == '\t' as u8 || b == '\n' as u8 || b == 11u8 || b == 12u8
        || b == '\r' as u8;
    space && s[k + 1] == 'f' as u8 && s[k + 2] == 'p' as u8 && s[k + 3] == 's' as u8
}

/// The value of the digits `s[i..j)`, saturating at `u64::MAX`.
fn parse_digits_sat(s: &[u8], i: usize, j: usize) -> (v: u64)
    requires
        i <= j <= s.len(),
        forall|t: int| i <= t < j ==> is_digit(s@[t]),
    ensures
        v == sat_u64(digits_val(s@, i as int, j as int)),
{
    let mut v: u64 = 0;
    let mut t = i;
    while t < j
        invariant
            i <= t <= j <= s@.len(),
            forall|u: int| i <= u < j ==> is_digit(s@[u]),
            v == sat_u64(digits_val(s@, i as int, t as int)),
        decreases j - t,
    {
        assert(is_digit(s@[t as int]));
        let d = s[t] - '0' as u8;
        let wide = (v as u128) * 10 + (d as u128);
        proof {
            lemma_digits_val_nonneg(s@, i as int, t as int);
            assert(digits_val(s@, i as int, t as int + 1) == digits_val(s@, i as int, t as int)
                * 10 + d);
        }
        if wide > u64::MAX as u128 {
            v = u64::MAX;
        } else {
            v = wide as u64;
        }
        t = t + 1;
    }
    v
}

/// The thousandths value of the fractional digits `s[i..j)`.
fn frac_milli_exec(s: &[u8], i: usize, j: usize) -> (f: u64)
    requires
        i <= j <= s.len(),
        forall|t: int| i <= t < j ==> is_digit(s@[t]),
    ensures
        f == frac_milli_val(s@, i as int, j as int),
        f <= 999,
{
    if j - i >= 3 {
        assert(is_digit(s@[i as int]) && is_digit(s@[i as int + 1]) && is_digit(s@[i as int + 2]));
        (s[i] - '0' as u8) as u64 * 100 + (s[i + 1] - '0' as u8) as u64 * 10 + (s[i + 2]
            - '0' as u8) as u64
    } else if j - i == 2 {
        assert(is_digit(s@[i as int]) && is_digit(s@[i as int + 1]));
        (s[i] - '0' as u8) as u64 * 100 + (s[i + 1] - '0' as u8) as u64 * 10
    } else if j - i == 1 {
        assert(is_digit(s@[i as int]));
        (s[i] - '0' as u8) as u64 * 100
    } else {
        0
    }
}

/// The saturating milli-fps value of a report starting at `i`, or `None`
/// when no report starts there.
fn match_value_at(s: &[u8], i: usize) -> (r: Option<u64>)
    requires
        i < s.len(),
    ensures
        r is Some <==> fps_match_at(s@, i as int),
        r matches Some(v) ==> v == sat_u64(match_value_milli(s@, i as int)),
{
    if !('0' as u8 <= s[i] && s[i] <= '9' as u8) {
        return None;
    }
    let j = digit_run_end_exec(s, i);
    proof {
        lemma_digit_run_end(s@, i as int);
    }
    if tail_matches_exec(s, j) {
        let iv = parse_digits_sat(s, i, j);
        let wide = (iv as u128) * 1000;
        proof {
            lemma_digits_val_nonneg(s@, i as int, j as int);
        }
        let v = if wide > u64::MAX as u128 {
            u64::MAX
        } else {
            wide as u64
        };
        return Some(v);
    }
    if j < s.len() && s[j] == '.' as u8 {
        if j + 1 < s.len() && '0' as u8 <= s[j + 1] && s[j + 1] <= '9' as u8 {
            let k = digit_run_end_exec(s, j + 1);
            proof {
                lemma_digit_run_end(s@, j as int + 1);
            }
            if tail_matches_exec(s, k) {
                let iv = parse_digits_sat(s, i, j);
                let fv = frac_milli_exec(s, j + 1, k);
                let wide = (iv as u128) * 1000 + (fv as u128);
                proof {
                    lemma_digits_val_nonneg(s@, i as int, j as int);
                }
                let v = if wide > u64::MAX as u128 {
                    u64::MAX
                } else {
                    wide as u64
                };
                return Some(v);
            }
        }
    }
    None
}

/// Scan the diagnostic text for its first frame-rate report and return
/// that report's saturating milli-fps value.
pub fn scan_rate_milli(s: &[u8]) -> (r: Option<u64>)
    ensures
        r is Some <==> has_fps_match(s@),
        r matches Some(v) ==> v == parsed_rate_milli(s@),
{
    let mut i: usize = 0;
    while i < s.len()
        invariant
            i <= s@.len(),
            first_match_from(s@, 0) == first_match_from(s@, i as int),
        decreases s@.len() - i,
    {
        match match_value_at(s, i) {
            Some(v) => {
                assert(first_match_from(s@, i as int) == i);
                return Some(v);
            },
            None => {
                assert(first_match_from(s@, i as int) == first_match_from(s@, i as int + 1));
            },
        }
        i = i + 1;
    }
    None
}

/// Resolve the frame rate to encode at: the explicitly configured rate
/// when present (unclamped — clamping happens uniformly before use),
/// otherwise the first rate the diagnostic text reports.
pub fn resolve_rate(explicit: Option<FrameRate>, diagnostics: &[u8]) -> (r: Result<
    FrameRate,
    PipelineError,
>)
    ensures
        r == resolve_rate_spec(explicit, diagnostics@),
{
    match explicit {
        Some(f) => Ok(f),
        None => match scan_rate_milli(diagnostics) {
            Some(m) => Ok(FrameRate { milli: m }),
            None => Err(PipelineError::RateParse),
        },
    }
}

} // verus!
