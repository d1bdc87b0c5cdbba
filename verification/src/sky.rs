//! The colour of the sky: a blend between a day and a night colour.
//!
//! How far the sky has turned towards night is the *ease*, a fraction of one
//! whole. It follows the cosine of the phase, taken over one full turn per
//! cycle: none at dawn, where the cosine is one whole, and full at dusk, half
//! a cycle later, where it is minus one whole. The caller takes the cosine;
//! this module turns it into the ease and blends the two colours by it,
//! channel by channel.
use crate::units::UNIT;
use vstd::arithmetic::div_mod::lemma_fundamental_div_mod_converse;
use vstd::prelude::*;

verus! {

/// A colour: red, green, blue and opacity, each a fraction of one whole in
/// steps of one [`UNIT`]th.
#[derive(Debug, Clone, Copy, PartialEq, Eq)]
pub struct Color {
    /// Red.
    pub r: u64,
    /// Green.
    pub g: u64,
    /// Blue.
    pub b: u64,
    /// Opacity: `UNIT` is opaque.
    pub a: u64,
}

/// Red of the sky at full day: 0.53.
pub const DAY_RED: u64 = 318_000;

/// Green of the sky at full day: 0.81.
pub const DAY_GREEN: u64 = 486_000;

/// Blue of the sky at full day: 0.92.
pub const DAY_BLUE: u64 = 552_000;

/// Red of the sky at full night: 0.29.
pub const NIGHT_RED: u64 = 174_000;

/// Green of the sky at full night: none.
pub const NIGHT_GREEN: u64 = 0;

/// Blue of the sky at full night: 0.51.
pub const NIGHT_BLUE: u64 = 306_000;

/// The sky at full day: sky blue, opaque.
pub open spec fn day() -> (int, int, int, int) {
    (DAY_RED as int, DAY_GREEN as int, DAY_BLUE as int, UNIT as int)
}

/// The sky at full night: dark violet, opaque.
pub open spec fn night() -> (int, int, int, int) {
    (NIGHT_RED as int, NIGHT_GREEN as int, NIGHT_BLUE as int, UNIT as int)
}

/// The ease that belongs to `cosine`, the cosine of the phase in steps of one
/// [`UNIT`]th: half of what the cosine lacks to one whole, rounded down to a
/// whole step.
pub open spec fn eased(cosine: int) -> int {
    (UNIT - cosine) / 2
}

/// The value that lies the fraction `t / UNIT` of the way from `from` to
/// `to`, rounded down to a whole step.
pub open spec fn mixed(from: int, to: int, t: int) -> int {
    from + ((to - from) * t) / (UNIT as int)
}

/// The sky's colour where it has turned the fraction `ease / UNIT` from day
/// to night: each channel blended by [`mixed`], and opaque.
pub open spec fn sky(ease: int) -> (int, int, int, int) {
    (
        mixed(DAY_RED as int, NIGHT_RED as int, ease),
        mixed(DAY_GREEN as int, NIGHT_GREEN as int, ease),
        mixed(DAY_BLUE as int, NIGHT_BLUE as int, ease),
        UNIT as int,
    )
}

impl View for Color {
    type V = (int, int, int, int);

    open spec fn view(&self) -> (int, int, int, int) {
        (self.r as int, self.g as int, self.b as int, self.a as int)
    }
}

/// Rounding a negative quotient down is rounding its positive counterpart up.
proof fn floor_of_negative(n: int, d: int)
    requires
        n >= 0,
        d > 0,
    ensures
        (-n) / d == -((n + d - 1) / d),
{
    let up = (n + d - 1) / d;
    let rest = (n + d - 1) % d;
    assert(n + d - 1 == d * up + rest && 0 <= rest < d) by {
        vstd::arithmetic::div_mod::lemma_fundamental_div_mod(n + d - 1, d);
        vstd::arithmetic::div_mod::lemma_mod_bound(n + d - 1, d);
    }
    assert(-n == (-up) * d + (d - 1 - rest)) by (nonlinear_arith)
        requires
            n + d - 1 == d * up + rest,
    ;
    lemma_fundamental_div_mod_converse(-n, d, -up, d - 1 - rest);
}

/// The ease of the sky for the cosine of its phase: none where the cosine is
/// one whole, full where it is minus one whole, and half way where it
/// vanishes.
pub fn ease(cosine: i64) -> (e: u64)
    requires
        -UNIT <= cosine <= UNIT,
    ensures
        e == eased(cosine as int),
        e <= UNIT,
{
    ((UNIT - cosine) as u64) / 2
}

/// Blends `from` and `to`: the value the fraction `t / UNIT` of the way from
/// the first to the second.
pub fn mix(from: u64, to: u64, t: u64) -> (m: u64)
    requires
        t <= UNIT,
    ensures
        m == mixed(from as int, to as int, t as int),
        from <= to ==> from <= m <= to,
        to <= from ==> to <= m <= from,
{
    let whole: u128 = UNIT as u128;
    if to >= from {
        let span: u64 = to - from;
        assert(span * t <= span * UNIT) by (nonlinear_arith)
            requires
                0 <= span,
                0 <= t <= UNIT,
        ;
        assert(span * UNIT <= u64::MAX * UNIT) by (nonlinear_arith)
            requires
                span <= u64::MAX,
        ;
        let part: u128 = (span as u128 * t as u128) / whole;
        assert(part <= span) by (nonlinear_arith)
            requires
                part == (span * t) / (UNIT as int),
                span * t <= span * UNIT,
                0 <= span,
        ;
        from + part as u64
    } else {
        let span: u64 = from - to;
        assert(span * t <= span * UNIT) by (nonlinear_arith)
            requires
                0 <= span,
                0 <= t <= UNIT,
        ;
        assert(span * UNIT <= u64::MAX * UNIT) by (nonlinear_arith)
            requires
                span <= u64::MAX,
        ;
        let part: u128 = (span as u128 * t as u128 + (whole - 1)) / whole;
        assert(part <= span) by (nonlinear_arith)
            requires
                part == (span * t + UNIT - 1) / (UNIT as int),
                span * t <= span * UNIT,
                0 <= span,
        ;
        proof {
            floor_of_negative(span * t, UNIT as int);
            assert((to - from) * t == -(span * t)) by (nonlinear_arith)
                requires
                    span == from - to,
            ;
        }
        from - part as u64
    }
}

/// The colour of the sky where it has turned the fraction `ease / UNIT` from
/// day to night.
pub fn sky_color(ease: u64) -> (color: Color)
    requires
        ease <= UNIT,
    ensures
        color@ == sky(ease as int),
{
    Color {
        r: mix(DAY_RED, NIGHT_RED, ease),
        g: mix(DAY_GREEN, NIGHT_GREEN, ease),
        b: mix(DAY_BLUE, NIGHT_BLUE, ease),
        a: UNIT as u64,
    }
}

/// With no ease, as at dawn where the cosine of the phase is one whole, the
/// sky is exactly the day colour; with full ease, as half a cycle later where
/// the cosine is minus one whole, exactly the night colour; and in between no
/// channel leaves the range that the two span.
pub proof fn sky_meets_its_ends(ease: int)
    requires
        0 <= ease <= UNIT,
    ensures
        eased(UNIT as int) == 0,
        eased(-UNIT as int) == UNIT,
        sky(0) == day(),
        sky(UNIT as int) == night(),
        NIGHT_RED <= sky(ease).0 <= DAY_RED,
        NIGHT_GREEN <= sky(ease).1 <= DAY_GREEN,
        NIGHT_BLUE <= sky(ease).2 <= DAY_BLUE,
        sky(ease).3 == UNIT,
{
    channel_stays_between(DAY_RED as int, NIGHT_RED as int, ease);
    channel_stays_between(DAY_GREEN as int, NIGHT_GREEN as int, ease);
    channel_stays_between(DAY_BLUE as int, NIGHT_BLUE as int, ease);
}

/// A blend of two values lies between them, and is the first with no ease and
/// the second with full ease.
pub proof fn channel_stays_between(from: int, to: int, t: int)
    requires
        0 <= t <= UNIT,
    ensures
        mixed(from, to, 0) == from,
        mixed(from, to, UNIT as int) == to,
        from <= to ==> from <= mixed(from, to, t) <= to,
        to <= from ==> to <= mixed(from, to, t) <= from,
{
    let whole = UNIT as int;
    assert(((to - from) * whole) / whole == to - from) by {
        vstd::arithmetic::div_mod::lemma_div_multiples_vanish(to - from, whole);
        assert((to - from) * whole == whole * (to - from)) by (nonlinear_arith);
    }
    assert((to - from) * 0 == 0);
    let product = (to - from) * t;
    let part = product / whole;
    assert(product == whole * part + product % whole && 0 <= product % whole < whole) by {
        vstd::arithmetic::div_mod::lemma_fundamental_div_mod(product, whole);
        vstd::arithmetic::div_mod::lemma_mod_bound(product, whole);
    }
    if from <= to {
        assert(0 <= product <= (to - from) * whole) by (nonlinear_arith)
            requires
                product == (to - from) * t,
                0 <= t <= whole,
                from <= to,
        ;
        assert(0 <= part <= to - from) by (nonlinear_arith)
            requires
                product == whole * part + product % whole,
                0 <= product % whole < whole,
                0 <= product <= (to - from) * whole,
                whole > 0,
        ;
    } else {
        assert((to - from) * whole <= product <= 0) by (nonlinear_arith)
            requires
                product == (to - from) * t,
                0 <= t <= whole,
                to <= from,
        ;
        assert(to - from <= part <= 0) by (nonlinear_arith)
            requires
                product == whole * part + product % whole,
                0 <= product % whole < whole,
                (to - from) * whole <= product <= 0,
                whole > 0,
        ;
    }
}

} // verus!
