//! The comparison engine: the movement of a current price against a
//! historical one.

use vstd::prelude::*;

use crate::price::{Price, MAX_PRICE_SCALE, PRICE_UNITS_BOUND};
use crate::text::{decimal_text, lemma_pow10_monotone, lemma_pow10_positive, pow10, pow10_exec, push_decimal};

verus! {

/// Which way a price moved.
#[derive(Clone, Copy, Debug, PartialEq, Eq, Structural)]
pub enum Direction {
    Up,
    Down,
    Flat,
}

/// The movement of a current price against a historical price.
///
/// `delta_units / 10^scale` is the current price minus the historical one;
/// `percent` is the change in hundredths of a percent, `None` where the
/// historical price is zero and the percentage is undefined.
#[derive(Clone, Copy, Debug, PartialEq, Eq, Structural)]
pub struct Movement {
    pub delta_units: i128,
    pub scale: u32,
    pub percent: Option<i128>,
    pub direction: Direction,
}

/// The scale at which both prices are compared: the larger of the two.
pub open spec fn common_scale(c: (nat, nat), h: (nat, nat)) -> nat {
    if c.1 >= h.1 { c.1 } else { h.1 }
}

/// The units of price `p` written at the larger scale `s`.
pub open spec fn lifted(p: (nat, nat), s: nat) -> int {
    (p.0 * pow10((s - p.1) as nat)) as int
}

/// Current minus historical price, in units of `10^-common_scale`.
pub open spec fn delta_of(c: (nat, nat), h: (nat, nat)) -> int {
    lifted(c, common_scale(c, h)) - lifted(h, common_scale(c, h))
}

/// `n / d` rounded to the nearest integer, halves away from zero (`d > 0`).
pub open spec fn round_half_away(n: int, d: int) -> int {
    if n >= 0 {
        (2 * n + d) / (2 * d)
    } else {
        -((2 * (-n) + d) / (2 * d))
    }
}

/// `(current / historical * 100) - 100`, in hundredths of a percent rounded
/// half away from zero; `None` when the historical price is zero.
pub open spec fn percent_of(c: (nat, nat), h: (nat, nat)) -> Option<int> {
    if h.0 == 0 {
        None
    } else {
        Some(round_half_away(delta_of(c, h) * 10000, lifted(h, common_scale(c, h))))
    }
}

/// The direction of a price difference.
pub open spec fn direction_of(delta: int) -> Direction {
    if delta > 0 {
        Direction::Up
    } else if delta < 0 {
        Direction::Down
    } else {
        Direction::Flat
    }
}

/// `m` is the movement of the current price `c` against the historical price `h`.
pub open spec fn is_movement(m: Movement, c: (nat, nat), h: (nat, nat)) -> bool {
    &&& m.delta_units == delta_of(c, h)
    &&& m.scale == common_scale(c, h)
    &&& opt_int(m.percent) == percent_of(c, h)
    &&& m.direction == direction_of(delta_of(c, h))
}

/// An optional machine integer as an optional mathematical one.
pub open spec fn opt_int(p: Option<i128>) -> Option<int> {
    match p {
        Some(v) => Some(v as int),
        None => None,
    }
}

/// The sign written before an amount: "+" above zero, "-" below, nothing at zero.
pub open spec fn sign_text(v: int) -> Seq<char> {
    if v > 0 {
        seq!['+']
    } else if v < 0 {
        seq!['-']
    } else {
        Seq::empty()
    }
}

/// The absolute value of `v`.
pub open spec fn abs(v: int) -> nat {
    if v < 0 { (-v) as nat } else { v as nat }
}

/// A signed fixed-point amount `v / 10^scale`, with its sign written out.
pub open spec fn signed_text(v: int, scale: nat) -> Seq<char> {
    sign_text(v) + decimal_text(abs(v), scale)
}

/// The marker shown where a percentage is undefined.
pub open spec fn undefined_marker() -> Seq<char> {
    seq!['\u{2014}']
}

/// The text of a movement's percentage: the signed value with two fraction
/// digits and a percent sign, or the undefined marker.
pub open spec fn percent_text(p: Option<int>) -> Seq<char> {
    match p {
        Some(v) => signed_text(v, 2) + seq!['%'],
        None => undefined_marker(),
    }
}

proof fn lemma_lift_bound(u: nat, sc: nat, s: nat)
    requires
        u < PRICE_UNITS_BOUND,
        sc <= s <= MAX_PRICE_SCALE,
    ensures
        1 <= pow10((s - sc) as nat) <= 1_000_000_000_000,
        u * pow10((s - sc) as nat) < 100_000_000_000_000_000_000_000_000_000_000,
{
    let k = (s - sc) as nat;
    lemma_pow10_monotone(k, 12);
    lemma_pow10_positive(k);
    reveal_with_fuel(pow10, 13);
    assert(pow10(12) == 1_000_000_000_000);
    let p = pow10(k);
    assert(u * p < 100_000_000_000_000_000_000_000_000_000_000) by (nonlinear_arith)
        requires
            u < 100_000_000_000_000_000_000,
            p <= 1_000_000_000_000,
    ;
}

/// The movement of the price `current` against the price `historical`.
pub fn compare(current: &Price, historical: &Price) -> (m: Movement)
    ensures
        is_movement(m, current@, historical@),
        m.scale <= MAX_PRICE_SCALE,
        m.delta_units > i128::MIN,
        m.percent matches Some(p) ==> p > i128::MIN,
{
    let cu = current.units();
    let cs = current.scale();
    let hu = historical.units();
    let hs = historical.scale();
    let s = if cs >= hs { cs } else { hs };
    let pc = pow10_exec(s - cs);
    let ph = pow10_exec(s - hs);
    proof {
        lemma_lift_bound(cu as nat, cs as nat, s as nat);
        lemma_lift_bound(hu as nat, hs as nat, s as nat);
    }
    let lc = (cu * pc) as i128;
    let lh = (hu * ph) as i128;
    let delta: i128 = lc - lh;
    let percent = if hu == 0 {
        None
    } else {
        assert(lh > 0) by (nonlinear_arith)
            requires
                hu > 0,
                ph >= 1,
                lh == hu * ph,
        ;
        let n: i128 = delta * 10000;
        let r: i128 = if n >= 0 {
            (2 * n + lh) / (2 * lh)
        } else {
            -((2 * (-n) + lh) / (2 * lh))
        };
        Some(r)
    };
    let direction = if delta > 0 {
        Direction::Up
    } else if delta < 0 {
        Direction::Down
    } else {
        Direction::Flat
    };
    Movement { delta_units: delta, scale: s, percent, direction }
}

/// Appends `v / 10^scale` with its sign written out.
fn push_signed(out: &mut String, v: i128, scale: u32)
    requires
        scale <= 28,
        v > i128::MIN,
    ensures
        final(out)@ == old(out)@ + signed_text(v as int, scale as nat),
{
    proof {
        reveal_strlit("+");
        reveal_strlit("-");
    }
    if v > 0 {
        out.append("+");
        push_decimal(out, v as u128, scale);
    } else if v < 0 {
        out.append("-");
        push_decimal(out, (-v) as u128, scale);
    } else {
        push_decimal(out, 0, scale);
    }
    assert(final(out)@ =~= old(out)@ + signed_text(v as int, scale as nat));
}

impl Movement {
    /// The price difference with its sign written out, e.g. "+3.45".
    pub fn delta_text(&self) -> (r: String)
        requires
            self.scale <= 28,
            self.delta_units > i128::MIN,
        ensures
            r@ == signed_text(self.delta_units as int, self.scale as nat),
    {
        let mut out = String::new();
        push_signed(&mut out, self.delta_units, self.scale);
        out
    }

    /// The percentage with its sign written out, e.g. "+2.88%", or the
    /// undefined marker.
    pub fn percent_text(&self) -> (r: String)
        requires
            self.percent matches Some(p) ==> p > i128::MIN,
        ensures
            r@ == percent_text(opt_int(self.percent)),
    {
        match self.percent {
            Some(p) => {
                let mut out = String::new();
                push_signed(&mut out, p, 2);
                proof { reveal_strlit("%"); }
                out.append("%");
                out
            },
            None => {
                proof { reveal_strlit("\u{2014}"); }
                "\u{2014}".to_owned()
            },
        }
    }
}

} // verus!
