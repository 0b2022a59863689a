//! Confidence arithmetic: scores from observed counts, and the factors that explain them.
//!
//! Scores are in hundredths, factor contributions in thousandths.
use vstd::prelude::*;

use crate::model::{ConfidenceFactor, FactorView, factor_views};
use crate::text::{
    chars_of, dec, dec_chars, dec_padded, dec_padded_chars, push_all, push_str, slice_chars,
    string_of,
};

verus! {

/// The characters of `s` with trailing `'0'`s removed.
pub open spec fn strip_zeros(s: Seq<char>) -> Seq<char>
    decreases s.len(),
{
    if s.len() > 0 && s.last() == '0' {
        strip_zeros(s.drop_last())
    } else {
        s
    }
}

/// A number of thousandths written as the shortest decimal, as `f32` display writes
/// these values (`50` is `0.05`, `800` is `0.8`, `1000` is `1`).
pub open spec fn milli_text(n: nat) -> Seq<char> {
    if n % 1000 == 0 {
        dec(n / 1000)
    } else {
        dec(n / 1000) + seq!['.'] + strip_zeros(dec_padded(n % 1000, 3))
    }
}

/// Rounds thousandths to the nearest hundredth, halves upward.
pub open spec fn round_to_hundredths(milli: nat) -> nat {
    (milli + 5) / 10
}

/// The score for `count` observations: `base + count * slope`, capped at `ceiling`,
/// rounded to hundredths (all inputs in thousandths).
pub open spec fn count_confidence(base: nat, count: nat, slope: nat, ceiling: nat) -> nat {
    let raw = base + count * slope;
    if raw > ceiling {
        round_to_hundredths(ceiling)
    } else {
        round_to_hundredths(raw)
    }
}

/// The factors that explain [`count_confidence`]: the rule prior, the count signal and,
/// when the raw score exceeded the ceiling, the clipping correction.
pub open spec fn count_factors(base: nat, count: nat, slope: nat, ceiling: nat, field: Seq<char>) -> Seq<
    FactorView,
> {
    let raw = base + count * slope;
    let fs = seq![
        FactorView { factor: "base_rate"@, contribution: base as int, detail: "rule prior for "@ + field },
        FactorView {
            factor: "count_signal"@,
            contribution: (count * slope) as int,
            detail: "count="@ + dec(count) + ", slope="@ + milli_text(slope),
        },
    ];
    if raw > ceiling {
        fs.push(
            FactorView {
                factor: "ceiling_clip"@,
                contribution: ceiling - raw,
                detail: "clipped to ceiling "@ + milli_text(ceiling),
            },
        )
    } else {
        fs
    }
}

/// The single factor of a fixed score given in hundredths.
pub open spec fn fixed_factors(score: nat, reason: Seq<char>) -> Seq<FactorView> {
    seq![FactorView { factor: "rule_prior"@, contribution: (score * 10) as int, detail: reason }]
}

/// `milli_text` computed.
pub fn milli_text_chars(n: u64) -> (r: Vec<char>)
    ensures
        r@ == milli_text(n as nat),
{
    let mut out = dec_chars(n / 1000);
    if n % 1000 == 0 {
        return out;
    }
    out.push('.');
    let frac = dec_padded_chars(n % 1000, 3);
    let mut end = frac.len();
    assert(frac@.subrange(0, end as int) =~= frac@);
    while end > 0 && frac[end - 1] == '0'
        invariant
            end <= frac@.len(),
            strip_zeros(frac@) == strip_zeros(frac@.subrange(0, end as int)),
        decreases end,
    {
        assert(frac@.subrange(0, end as int).drop_last() =~= frac@.subrange(0, end - 1));
        end = end - 1;
    }
    let kept = slice_chars(&frac, 0, end);
    push_all(&mut out, &kept);
    out
}

/// The score and factors for `count` observations (see [`count_confidence`]).
pub fn confidence_from_count_with_factors(
    base: u32,
    count: u128,
    slope: u32,
    ceiling: u32,
    field: &Vec<char>,
) -> (r: (u32, Vec<ConfidenceFactor>))
    requires
        base <= 1000,
        slope <= 1000,
        ceiling <= 1000,
        count <= u64::MAX as u128 * 2,
    ensures
        r.0 as nat == count_confidence(base as nat, count as nat, slope as nat, ceiling as nat),
        factor_views(r.1@) == count_factors(
            base as nat,
            count as nat,
            slope as nat,
            ceiling as nat,
            field@,
        ),
{
    assert((count as int) * (slope as int) <= 36893488147419103230000) by (nonlinear_arith)
        requires
            count <= u64::MAX as u128 * 2,
            slope <= 1000,
    ;
    let contribution: u128 = count * (slope as u128);
    let raw: u128 = (base as u128) + contribution;
    let clipped: u128 = if raw > ceiling as u128 {
        ceiling as u128
    } else {
        raw
    };
    let score: u32 = ((clipped + 5) / 10) as u32;
    let mut factors: Vec<ConfidenceFactor> = Vec::new();
    let mut d1 = chars_of("rule prior for ");
    push_all(&mut d1, field);
    factors.push(ConfidenceFactor::new("base_rate", base as i128, string_of(&d1)));
    let mut d2 = chars_of("count=");
    let cnt = dec_u128(count);
    push_all(&mut d2, &cnt);
    push_str(&mut d2, ", slope=");
    let sl = milli_text_chars(slope as u64);
    push_all(&mut d2, &sl);
    factors.push(ConfidenceFactor::new("count_signal", contribution as i128, string_of(&d2)));
    if raw > ceiling as u128 {
        let mut d3 = chars_of("clipped to ceiling ");
        let cl = milli_text_chars(ceiling as u64);
        push_all(&mut d3, &cl);
        factors.push(
            ConfidenceFactor::new(
                "ceiling_clip",
                (ceiling as i128) - (raw as i128),
                string_of(&d3),
            ),
        );
    }
    proof {
        let ghost fs = count_factors(
            base as nat,
            count as nat,
            slope as nat,
            ceiling as nat,
            field@,
        );
        assert(factor_views(factors@) =~= fs);
    }
    (score, factors)
}

/// A `u128` count in decimal.
pub fn dec_u128(n: u128) -> (res: Vec<char>)
    ensures
        res@ == dec(n as nat),
    decreases n,
{
    if n < 10 {
        let mut v: Vec<char> = Vec::new();
        v.push(crate::text::digit(n as u64));
        assert(v@ =~= seq![crate::text::digit_char(n as nat)]);
        v
    } else {
        let mut v = dec_u128(n / 10);
        v.push(crate::text::digit((n % 10) as u64));
        v
    }
}

/// The single factor for a fixed score in hundredths.
pub fn fixed_confidence_factor(score: u32, reason: &str) -> (r: Vec<ConfidenceFactor>)
    requires
        score <= 100,
    ensures
        factor_views(r@) == fixed_factors(score as nat, reason@),
{
    let mut v: Vec<ConfidenceFactor> = Vec::new();
    v.push(ConfidenceFactor::new("rule_prior", (score as i128) * 10, reason.to_owned()));
    assert(factor_views(v@) =~= fixed_factors(score as nat, reason@));
    v
}

} // verus!
