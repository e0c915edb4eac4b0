//! Decimal numbers held as an integer count of units and a power of ten.
use vstd::arithmetic::div_mod::lemma_div_denominator;
use vstd::prelude::*;

verus! {

/// The character of decimal digit `d`.
pub open spec fn digit_char(d: nat) -> char
    recommends
        d < 10,
{
    seq!['0', '1', '2', '3', '4', '5', '6', '7', '8', '9'][d as int]
}

/// Ten raised to `n`.
pub open spec fn pow10(n: nat) -> nat
    decreases n,
{
    if n == 0 {
        1
    } else {
        10 * pow10((n - 1) as nat)
    }
}

/// The decimal digits of `n`, most significant first, without leading zeros
/// (zero is written "0").
pub open spec fn digits_of(n: nat) -> Seq<char>
    decreases n,
{
    if n < 10 {
        seq![digit_char(n)]
    } else {
        digits_of(n / 10).push(digit_char(n % 10))
    }
}

/// The last `w` decimal digits of `n`, with zeros in front where `n` has fewer.
pub open spec fn low_digits(n: nat, w: nat) -> Seq<char>
    decreases w,
{
    if w == 0 {
        seq![]
    } else {
        low_digits(n / 10, (w - 1) as nat).push(digit_char(n % 10))
    }
}

/// The number `n / 10^w` written with exactly `w` digits after the decimal
/// point, and no point at all where `w` is zero.
pub open spec fn scaled_text(n: nat, w: nat) -> Seq<char> {
    if w == 0 {
        digits_of(n)
    } else {
        digits_of(n / pow10(w)) + seq!['.'] + low_digits(n, w)
    }
}

/// A decimal number: `units / 10^scale`. `Decimal { units: 5902, scale: 2 }`
/// is 59.02, and `Decimal { units: 5900, scale: 2 }` is 59.00.
#[derive(Clone, Copy, Debug, PartialEq, Eq)]
pub struct Decimal {
    pub units: i64,
    pub scale: u8,
}

/// The text of `d`: a minus sign where it is negative, then its magnitude with
/// `d.scale` digits after the decimal point.
pub open spec fn decimal_text(d: Decimal) -> Seq<char> {
    if d.units < 0 {
        seq!['-'] + scaled_text((-d.units) as nat, d.scale as nat)
    } else {
        scaled_text(d.units as nat, d.scale as nat)
    }
}

/// Relies on String::push: the character is appended at the end.
#[verifier::external_body]
fn push_char(s: &mut String, c: char)
    ensures
        final(s)@ == old(s)@.push(c),
{
    s.push(c);
}

fn digit(d: u64) -> (c: char)
    requires
        d < 10,
    ensures
        c == digit_char(d as nat),
{
    let table: [char; 10] = ['0', '1', '2', '3', '4', '5', '6', '7', '8', '9'];
    assert(table@ == seq!['0', '1', '2', '3', '4', '5', '6', '7', '8', '9']);
    table[d as usize]
}

fn push_digits(out: &mut String, n: u64)
    ensures
        final(out)@ == old(out)@ + digits_of(n as nat),
    decreases n,
{
    if n >= 10 {
        push_digits(out, n / 10);
    }
    push_char(out, digit(n % 10));
    assert(final(out)@ =~= old(out)@ + digits_of(n as nat));
}

fn push_scaled(out: &mut String, n: u64, w: u8)
    requires
        w > 0,
    ensures
        final(out)@ == old(out)@ + scaled_text(n as nat, w as nat),
    decreases w,
{
    if w == 1 {
        push_digits(out, n / 10);
        push_char(out, '.');
        push_char(out, digit(n % 10));
        assert(pow10(1) == 10) by {
            reveal_with_fuel(pow10, 2);
        }
        assert(low_digits(n as nat / 10, 0) =~= seq![]);
        assert(low_digits(n as nat, 1) =~= seq![digit_char(n as nat % 10)]);
    } else {
        push_scaled(out, n / 10, w - 1);
        push_char(out, digit(n % 10));
        proof {
            let p = pow10((w - 1) as nat);
            assert(p > 0) by {
                lemma_pow10_positive((w - 1) as nat);
            }
            lemma_div_denominator(n as int, 10, p as int);
        }
    }
    assert(final(out)@ =~= old(out)@ + scaled_text(n as nat, w as nat));
}

proof fn lemma_pow10_positive(n: nat)
    ensures
        pow10(n) > 0,
    decreases n,
{
    if n > 0 {
        lemma_pow10_positive((n - 1) as nat);
    }
}

impl Decimal {
    /// The decimal `units / 10^scale`.
    pub fn new(units: i64, scale: u8) -> (r: Decimal)
        ensures
            r.units == units,
            r.scale == scale,
    {
        Decimal { units, scale }
    }

    /// Appends the text of this number to `out`.
    pub fn append_to(&self, out: &mut String)
        ensures
            final(out)@ == old(out)@ + decimal_text(*self),
    {
        let wide: i128 = self.units as i128;
        let magnitude: u64 = if wide < 0 {
            push_char(out, '-');
            (-wide) as u64
        } else {
            wide as u64
        };
        if self.scale == 0 {
            push_digits(out, magnitude);
        } else {
            push_scaled(out, magnitude, self.scale);
        }
        assert(final(out)@ =~= old(out)@ + decimal_text(*self));
    }

    /// The text of this number.
    pub fn to_text(&self) -> (r: String)
        ensures
            r@ == decimal_text(*self),
    {
        let mut out = String::new();
        self.append_to(&mut out);
        assert(out@ =~= decimal_text(*self));
        out
    }
}

} // verus!
