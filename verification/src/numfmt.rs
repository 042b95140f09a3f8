//! Decimal rendering of the two encoder parameters.
//!
//! The encoder takes its quality and frame rate as text. A quality is an
//! integer; a frame rate is carried in milli-fps and rendered as an integer
//! part, then — only when the thousandths are not zero — a point and the
//! fractional digits with trailing zeros dropped, the way `29970` milli-fps
//! reads `29.97`.

use vstd::prelude::*;

verus! {

/// The digit byte for a value below ten.
pub open spec fn digit_byte(d: int) -> u8 {
    (('0' as u8) + d) as u8
}

/// The decimal digits of `n`, most significant first, no leading zeros
/// (a single `0` for zero).
pub open spec fn dec_digits(n: nat) -> Seq<u8>
    decreases n,
{
    if n < 10 {
        seq![digit_byte(n as int)]
    } else {
        dec_digits(n / 10).push(digit_byte((n % 10) as int))
    }
}

/// The rendering of a fractional part `f` of a milli quantity,
/// `0 < f <= 999`: three zero-padded digits with trailing zeros dropped.
pub open spec fn frac_digits(f: nat) -> Seq<u8> {
    let d1 = digit_byte((f / 100) as int);
    let d2 = digit_byte(((f / 10) % 10) as int);
    let d3 = digit_byte((f % 10) as int);
    if f % 10 != 0 {
        seq![d1, d2, d3]
    } else if (f / 10) % 10 != 0 {
        seq![d1, d2]
    } else {
        seq![d1]
    }
}

/// The rendering of a milli-fps rate: the integer part, then the non-zero
/// fractional part after a point.
pub open spec fn rate_text(m: nat) -> Seq<u8> {
    if m % 1000 == 0 {
        dec_digits(m / 1000)
    } else {
        dec_digits(m / 1000) + seq!['.' as u8] + frac_digits(m % 1000)
    }
}

/// Render `n` in decimal.
pub fn format_u64(n: u64) -> (r: Vec<u8>)
    ensures
        r@ == dec_digits(n as nat),
{
    let mut low: Vec<u8> = Vec::new();
    let ghost mut high: Seq<u8> = Seq::empty();
    let mut m = n;
    proof {
        assert(dec_digits(n as nat) =~= dec_digits(n as nat) + high);
    }
    while m >= 10
        invariant
            dec_digits(n as nat) == dec_digits(m as nat) + high,
            low@.len() == high.len(),
            forall|k: int| 0 <= k < high.len() ==> low@[k] == high[high.len() - 1 - k],
        decreases m,
    {
        let d = (m % 10) as u8 + '0' as u8;
        proof {
            assert(dec_digits(m as nat) =~= dec_digits((m / 10) as nat) + seq![digit_byte((m % 10) as int)]);
            assert(dec_digits((m / 10) as nat) + (seq![digit_byte((m % 10) as int)] + high)
                =~= (dec_digits((m / 10) as nat) + seq![digit_byte((m % 10) as int)]) + high);
        }
        low.push(d);
        proof {
            high = seq![digit_byte((m % 10) as int)] + high;
        }
        m = m / 10;
    }
    let mut r: Vec<u8> = Vec::new();
    r.push(m as u8 + '0' as u8);
    proof {
        assert(dec_digits(m as nat) =~= seq![digit_byte(m as int)]);
        assert(r@ =~= dec_digits(m as nat) + high.subrange(0, 0));
    }
    let mut k: usize = 0;
    while k < low.len()
        invariant
            k <= low@.len(),
            low@.len() == high.len(),
            forall|j: int| 0 <= j < high.len() ==> low@[j] == high[high.len() - 1 - j],
            dec_digits(n as nat) == dec_digits(m as nat) + high,
            m < 10,
            r@ == dec_digits(m as nat) + high.subrange(0, k as int),
        decreases low@.len() - k,
    {
        r.push(low[low.len() - 1 - k]);
        proof {
            assert(r@ =~= dec_digits(m as nat) + high.subrange(0, k + 1));
        }
        k = k + 1;
    }
    proof {
        assert(high.subrange(0, high.len() as int) =~= high);
    }
    r
}

/// Render a milli-fps rate as the encoder expects it.
pub fn format_rate_milli(m: u64) -> (r: Vec<u8>)
    ensures
        r@ == rate_text(m as nat),
{
    let mut r = format_u64(m / 1000);
    let f = m % 1000;
    if f != 0 {
        r.push('.' as u8);
        let d1 = (f / 100) as u8 + '0' as u8;
        let d2 = ((f / 10) % 10) as u8 + '0' as u8;
        let d3 = (f % 10) as u8 + '0' as u8;
        if f % 10 != 0 {
            r.push(d1);
            r.push(d2);
            r.push(d3);
        } else if (f / 10) % 10 != 0 {
            r.push(d1);
            r.push(d2);
        } else {
            r.push(d1);
        }
        proof {
            assert(r@ =~= dec_digits((m / 1000) as nat) + seq!['.' as u8] + frac_digits((m % 1000) as nat));
        }
    }
    r
}

} // verus!
