//! Decimal rendering of natural numbers into strings.

use vstd::prelude::*;

verus! {

/// The character of a single decimal digit.
pub open spec fn digit_char(d: nat) -> char {
    if d == 0 { '0' }
    else if d == 1 { '1' }
    else if d == 2 { '2' }
    else if d == 3 { '3' }
    else if d == 4 { '4' }
    else if d == 5 { '5' }
    else if d == 6 { '6' }
    else if d == 7 { '7' }
    else if d == 8 { '8' }
    else { '9' }
}

/// The shortest decimal rendering of `n` (no leading zeros, "0" for zero).
pub open spec fn digits(n: nat) -> Seq<char>
    decreases n,
{
    if n < 10 {
        seq![digit_char(n)]
    } else {
        digits(n / 10).push(digit_char(n % 10))
    }
}

/// `k` copies of the character '0'.
pub open spec fn zeros(k: nat) -> Seq<char> {
    Seq::new(k, |i: int| '0')
}

/// The decimal rendering of `n`, left-padded with zeros to at least `width` characters.
pub open spec fn padded_digits(n: nat, width: nat) -> Seq<char> {
    let d = digits(n);
    if d.len() < width {
        zeros((width - d.len()) as nat) + d
    } else {
        d
    }
}

/// `10` to the power `k`.
pub open spec fn pow10(k: nat) -> nat
    decreases k,
{
    if k == 0 { 1 } else { 10 * pow10((k - 1) as nat) }
}

/// The rendering of the fixed-point number `units / 10^scale`: its integer
/// part, then, when `scale > 0`, a point and exactly `scale` fraction digits.
pub open spec fn decimal_text(units: nat, scale: nat) -> Seq<char> {
    if scale == 0 {
        digits(units)
    } else {
        digits(units / pow10(scale)) + seq!['.'] + padded_digits(units % pow10(scale), scale)
    }
}

pub proof fn lemma_pow10_positive(k: nat)
    ensures
        pow10(k) >= 1,
    decreases k,
{
    if k > 0 {
        lemma_pow10_positive((k - 1) as nat);
    }
}

pub proof fn lemma_pow10_monotone(a: nat, b: nat)
    requires
        a <= b,
    ensures
        pow10(a) <= pow10(b),
    decreases b,
{
    if a < b {
        lemma_pow10_monotone(a, (b - 1) as nat);
        lemma_pow10_positive((b - 1) as nat);
    }
}

proof fn lemma_digits_len(n: nat, k: nat)
    requires
        1 <= k,
        n < pow10(k),
    ensures
        digits(n).len() <= k,
    decreases n,
{
    if n >= 10 {
        reveal_with_fuel(pow10, 2);
        if k == 1 {
            assert(pow10(1) == 10);
        } else {
            let p = pow10((k - 1) as nat);
            assert(n / 10 < p) by (nonlinear_arith)
                requires
                    n < 10 * p,
            ;
            lemma_digits_len(n / 10, (k - 1) as nat);
        }
    }
}

/// `10^k` for the exponents up to 28.
pub fn pow10_exec(k: u32) -> (r: u128)
    requires
        k <= 28,
    ensures
        r == pow10(k as nat),
{
    let mut r: u128 = 1;
    let mut i: u32 = 0;
    while i < k
        invariant
            i <= k <= 28,
            r == pow10(i as nat),
        decreases k - i,
    {
        proof {
            lemma_pow10_monotone((i + 1) as nat, 28);
            reveal_with_fuel(pow10, 29);
            assert(pow10(28) == 10000000000000000000000000000nat);
        }
        r = r * 10;
        i = i + 1;
    }
    r
}

/// Appends the character of the digit `d`.
fn push_digit(out: &mut String, d: u128)
    requires
        d < 10,
    ensures
        final(out)@ == old(out)@.push(digit_char(d as nat)),
{
    let s: &str = if d == 0 { "0" }
        else if d == 1 { "1" }
        else if d == 2 { "2" }
        else if d == 3 { "3" }
        else if d == 4 { "4" }
        else if d == 5 { "5" }
        else if d == 6 { "6" }
        else if d == 7 { "7" }
        else if d == 8 { "8" }
        else { "9" };
    proof {
        reveal_strlit("0");
        reveal_strlit("1");
        reveal_strlit("2");
        reveal_strlit("3");
        reveal_strlit("4");
        reveal_strlit("5");
        reveal_strlit("6");
        reveal_strlit("7");
        reveal_strlit("8");
        reveal_strlit("9");
    }
    assert(s@ == seq![digit_char(d as nat)]);
    out.append(s);
}

/// Appends the shortest decimal rendering of `n`.
pub fn push_digits(out: &mut String, n: u128)
    ensures
        final(out)@ == old(out)@ + digits(n as nat),
    decreases n,
{
    if n >= 10 {
        push_digits(out, n / 10);
        push_digit(out, n % 10);
        assert(final(out)@ =~= old(out)@ + digits(n as nat));
    } else {
        push_digit(out, n);
        assert(final(out)@ =~= old(out)@ + digits(n as nat));
    }
}

/// The number of characters of the shortest decimal rendering of `n`.
pub fn digit_count(n: u128) -> (r: usize)
    ensures
        r == digits(n as nat).len(),
        r <= 39,
    decreases n,
{
    proof {
        reveal_with_fuel(pow10, 40);
        lemma_digits_len(n as nat, 39);
    }
    if n >= 10 {
        digit_count(n / 10) + 1
    } else {
        1
    }
}

/// Appends `k` zeros.
pub fn push_zeros(out: &mut String, k: usize)
    ensures
        final(out)@ == old(out)@ + zeros(k as nat),
{
    let mut i: usize = 0;
    while i < k
        invariant
            i <= k,
            out@ == old(out)@ + zeros(i as nat),
        decreases k - i,
    {
        proof { reveal_strlit("0"); }
        out.append("0");
        i = i + 1;
        assert(out@ =~= old(out)@ + zeros(i as nat));
    }
}

/// Appends the rendering of `n` left-padded with zeros to `width` characters.
pub fn push_padded(out: &mut String, n: u128, width: usize)
    ensures
        final(out)@ == old(out)@ + padded_digits(n as nat, width as nat),
{
    let len = digit_count(n);
    if len < width {
        push_zeros(out, width - len);
    }
    push_digits(out, n);
    assert(final(out)@ =~= old(out)@ + padded_digits(n as nat, width as nat));
}

/// Appends the rendering of the fixed-point number `units / 10^scale`.
pub fn push_decimal(out: &mut String, units: u128, scale: u32)
    requires
        scale <= 28,
    ensures
        final(out)@ == old(out)@ + decimal_text(units as nat, scale as nat),
{
    if scale == 0 {
        push_digits(out, units);
    } else {
        let p = pow10_exec(scale);
        proof { lemma_pow10_positive(scale as nat); }
        push_digits(out, units / p);
        proof { reveal_strlit("."); }
        out.append(".");
        push_padded(out, units % p, scale as usize);
        assert(final(out)@ =~= old(out)@ + decimal_text(units as nat, scale as nat));
    }
}

} // verus!
