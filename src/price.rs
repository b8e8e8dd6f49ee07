//! Prices: normalization of scraped price text and the fixed-point `Price` type.

use std::str::FromStr;

use rust_decimal::Decimal;
use vstd::prelude::*;

use crate::text::{decimal_text, push_decimal};

verus! {

/// The largest number of fraction digits a price may carry.
pub const MAX_PRICE_SCALE: u32 = 12;

/// Prices are held as `units / 10^scale` with `units` below this bound.
pub const PRICE_UNITS_BOUND: u128 = 100_000_000_000_000_000_000;

/// Characters dropped by normalization: surrounding whitespace and the
/// spaces used for thousands grouping.
pub open spec fn is_grouping_space(c: char) -> bool {
    c == ' ' || c == '\t' || c == '\n' || c == '\r' || c == '\u{a0}' || c == '\u{2009}'
        || c == '\u{202f}'
}

/// What one character of raw price text becomes after normalization.
pub open spec fn normalized_char(c: char) -> Seq<char> {
    if is_grouping_space(c) {
        Seq::empty()
    } else if c == ',' {
        seq!['.']
    } else {
        seq![c]
    }
}

/// Raw price text with grouping spaces removed and the decimal comma
/// replaced by a decimal point.
pub open spec fn normalized_text(s: Seq<char>) -> Seq<char>
    decreases s.len(),
{
    if s.len() == 0 {
        Seq::empty()
    } else {
        normalized_text(s.drop_last()) + normalized_char(s.last())
    }
}

/// What `Decimal::from_str` yields on `s`: `Some((mantissa, scale))` when it
/// parses, `None` when it returns an error.
pub uninterp spec fn decimal_from_str(s: Seq<char>) -> Option<(int, int)>;

/// Text that `Decimal::from_str` reads digit by digit: digits with at most one
/// point, at least one digit, and short enough to be accumulated without rounding.
pub open spec fn is_plain_decimal(s: Seq<char>) -> bool {
    &&& s.len() < 18
    &&& forall|i: int| 0 <= i < s.len() ==> ('0' <= #[trigger] s[i] <= '9' || s[i] == '.')
    &&& exists|i: int| 0 <= i < s.len() && '0' <= #[trigger] s[i] <= '9'
    &&& forall|i: int, j: int|
        0 <= i < j < s.len() && #[trigger] s[i] == '.' ==> #[trigger] s[j] != '.'
}

/// The value of a digit character.
pub open spec fn digit_value(c: char) -> int {
    c as int - '0' as int
}

/// The integer that the digits of `s` spell when its point is ignored.
pub open spec fn digits_value(s: Seq<char>) -> int
    decreases s.len(),
{
    if s.len() == 0 {
        0
    } else if s.last() == '.' {
        digits_value(s.drop_last())
    } else {
        10 * digits_value(s.drop_last()) + digit_value(s.last())
    }
}

/// The number of digits after the point in `s` (zero without a point).
pub open spec fn fraction_len(s: Seq<char>) -> int
    decreases s.len(),
{
    if s.len() == 0 {
        0
    } else if s.last() == '.' {
        0
    } else if s.drop_last().contains('.') {
        fraction_len(s.drop_last()) + 1
    } else {
        0
    }
}

/// Relies on `rust_decimal::Decimal::from_str`, read through `mantissa` and
/// `scale`: a parsed decimal keeps a scale of at most 28 and a 96-bit
/// mantissa, and plain digit text is read exactly, trailing zeros included.
#[verifier::external_body]
fn parse_decimal(s: &str) -> (r: Option<(i128, u32)>)
    ensures
        decimal_from_str(s@) == (match r {
            Some((m, sc)) => Some((m as int, sc as int)),
            None => None::<(int, int)>,
        }),
        r matches Some((m, sc)) ==> sc <= 28 && -0x1_0000_0000_0000_0000_0000_0000 < m
            < 0x1_0000_0000_0000_0000_0000_0000,
        is_plain_decimal(s@) ==> r == Some((digits_value(s@) as i128, fraction_len(s@) as u32)),
{
    match Decimal::from_str(s) {
        Ok(d) => Some((d.mantissa(), d.scale())),
        Err(_) => None,
    }
}

/// The price that raw price text denotes, as `(units, scale)`: the parse of
/// its normalized text, when that is non-negative and within the price bounds.
pub open spec fn price_of_text(s: Seq<char>) -> Option<(nat, nat)> {
    match decimal_from_str(normalized_text(s)) {
        Some((m, sc)) => if 0 <= m < PRICE_UNITS_BOUND && 0 <= sc <= MAX_PRICE_SCALE {
            Some((m as nat, sc as nat))
        } else {
            None
        },
        None => None,
    }
}

/// A non-negative fixed-point price `units / 10^scale`.
#[derive(Clone, Copy, Debug, PartialEq, Eq)]
pub struct Price {
    units: u128,
    scale: u32,
}

impl View for Price {
    type V = (nat, nat);

    /// The price as `(units, scale)`.
    closed spec fn view(&self) -> (nat, nat) {
        (self.units as nat, self.scale as nat)
    }
}

/// A price string that does not normalize to a valid price.
#[derive(Clone, Debug, PartialEq, Eq)]
pub enum PriceError {
    /// Carries the offending raw text.
    MalformedPrice(String),
}

/// Raw price text with grouping spaces removed and the decimal comma replaced
/// by a decimal point.
pub fn normalize_price_text(raw: &str) -> (r: String)
    ensures
        r@ == normalized_text(raw@),
{
    let n = raw.unicode_len();
    let mut out = String::new();
    let mut i: usize = 0;
    while i < n
        invariant
            n == raw@.len(),
            i <= n,
            out@ == normalized_text(raw@.subrange(0, i as int)),
        decreases n - i,
    {
        let c = raw.get_char(i);
        let ghost prefix = raw@.subrange(0, i as int);
        assert(raw@.subrange(0, i + 1).drop_last() =~= prefix);
        if c == ' ' || c == '\t' || c == '\n' || c == '\r' || c == '\u{a0}' || c == '\u{2009}'
            || c == '\u{202f}' {
        } else if c == ',' {
            proof { reveal_strlit("."); }
            out.append(".");
        } else {
            out.append(raw.substring_char(i, i + 1));
        }
        i = i + 1;
        assert(out@ =~= normalized_text(raw@.subrange(0, i as int)));
    }
    assert(raw@.subrange(0, n as int) =~= raw@);
    out
}

impl Price {
    #[verifier::type_invariant]
    spec fn well_formed(self) -> bool {
        self.units < PRICE_UNITS_BOUND && self.scale <= MAX_PRICE_SCALE
    }

    /// Parses raw price text: normalized, then read as a decimal.
    pub fn parse(raw: &str) -> (r: Result<Price, PriceError>)
        ensures
            r is Ok <==> price_of_text(raw@) is Some,
            r matches Ok(p) ==> price_of_text(raw@) == Some(p@),
            r matches Err(PriceError::MalformedPrice(t)) ==> t@ == raw@,
    {
        let text = normalize_price_text(raw);
        match parse_decimal(text.as_str()) {
            Some((m, sc)) => {
                if 0 <= m && m < PRICE_UNITS_BOUND as i128 && sc <= MAX_PRICE_SCALE {
                    Ok(Price { units: m as u128, scale: sc })
                } else {
                    Err(PriceError::MalformedPrice(raw.to_owned()))
                }
            },
            None => Err(PriceError::MalformedPrice(raw.to_owned())),
        }
    }

    pub fn units(&self) -> (r: u128)
        ensures
            r == self@.0,
            r < PRICE_UNITS_BOUND,
    {
        proof { use_type_invariant(self); }
        self.units
    }

    pub fn scale(&self) -> (r: u32)
        ensures
            r == self@.1,
            r <= MAX_PRICE_SCALE,
    {
        proof { use_type_invariant(self); }
        self.scale
    }

    /// The price written with exactly `scale` fraction digits.
    pub fn to_text(&self) -> (r: String)
        ensures
            r@ == decimal_text(self@.0, self@.1),
    {
        proof { use_type_invariant(self); }
        let mut out = String::new();
        push_decimal(&mut out, self.units, self.scale);
        out
    }
}

} // verus!
