//! Clamping of the two encoder parameters.
//!
//! The encoder is only ever handed a quality in `[0, 100]` and a frame rate
//! in `[0, 50]` frames per second; raw configuration values are clamped to
//! those ranges just before the encoder invocation is built. Frame rates are
//! carried as thousandths of a frame per second, so the rate bound is
//! `50_000` milli-fps.

use vstd::prelude::*;

verus! {

/// Upper bound of the encoder's quality range.
pub const QUALITY_MAX: u32 = 100;

/// Upper bound of the encoder's frame-rate range, in milli-fps.
pub const RATE_MILLI_MAX: u64 = 50_000;

/// A quality value clamped to `[0, 100]`.
pub open spec fn clamp_quality_spec(q: int) -> int {
    if q > QUALITY_MAX { QUALITY_MAX as int } else { q }
}

/// A milli-fps frame rate clamped to `[0, 50_000]`.
pub open spec fn clamp_rate_milli_spec(r: int) -> int {
    if r > RATE_MILLI_MAX { RATE_MILLI_MAX as int } else { r }
}

/// Clamp a raw quality value to the encoder's accepted range.
pub fn clamp_quality(q: u32) -> (r: u32)
    ensures
        r == clamp_quality_spec(q as int),
        0 <= r <= QUALITY_MAX,
{
    if q > QUALITY_MAX {
        QUALITY_MAX
    } else {
        q
    }
}

/// Clamp a raw milli-fps frame rate to the encoder's accepted range.
pub fn clamp_rate_milli(r: u64) -> (c: u64)
    ensures
        c == clamp_rate_milli_spec(r as int),
        0 <= c <= RATE_MILLI_MAX,
{
    if r > RATE_MILLI_MAX {
        RATE_MILLI_MAX
    } else {
        r
    }
}

/// Law: clamping a quality lands in `[0, 100]`, and clamping twice is the
/// same as clamping once.
pub proof fn lemma_clamp_quality_idempotent(q: int)
    requires
        q >= 0,
    ensures
        0 <= clamp_quality_spec(q) <= QUALITY_MAX,
        clamp_quality_spec(clamp_quality_spec(q)) == clamp_quality_spec(q),
{
}

/// Law: clamping a frame rate lands in `[0, 50]` fps (`[0, 50_000]`
/// milli-fps), and clamping twice is the same as clamping once.
pub proof fn lemma_clamp_rate_idempotent(r: int)
    requires
        r >= 0,
    ensures
        0 <= clamp_rate_milli_spec(r) <= RATE_MILLI_MAX,
        clamp_rate_milli_spec(clamp_rate_milli_spec(r)) == clamp_rate_milli_spec(r),
{
}

} // verus!
