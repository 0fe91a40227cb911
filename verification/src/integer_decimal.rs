//! Fixed-point amounts: an integer `number` with `decimals` decimal places,
//! as ERC-20 tokens report balances.
use crate::uint::{decimal_digits, digit_char, u256_modulus, U256};
use vstd::arithmetic::power::{lemma_pow_positive, pow};
use vstd::prelude::*;

verus! {

/// `number / 10^decimals`, the amount that an ERC-20 token displays for a raw
/// `number` of its smallest units.
#[derive(Debug)]
pub struct IntegerDecimal {
    pub number: U256,
    pub decimals: U256,
}

/// `10^decimals`, the number of smallest units in one whole unit.
pub open spec fn unit_scale(decimals: nat) -> int {
    pow(10, decimals)
}

impl IntegerDecimal {
    /// `10^decimals` fits in 256 bits, so the whole and fractional parts can
    /// be computed (the largest such `decimals` is 77).
    pub open spec fn scale_fits(&self) -> bool {
        unit_scale(self.decimals@) < u256_modulus()
    }

    /// The whole part: `number / 10^decimals`, rounded down.
    pub open spec fn integer_value(&self) -> nat {
        (self.number@ as int / unit_scale(self.decimals@)) as nat
    }

    /// The fractional part as an integer: `number % 10^decimals`, and zero
    /// when there are no decimals.
    pub open spec fn decimal_value(&self) -> nat {
        if self.decimals@ == 0 {
            0
        } else {
            (self.number@ as int % unit_scale(self.decimals@)) as nat
        }
    }

    /// The text of the amount: the whole part, a point, and the fractional
    /// part, each in decimal digits (the fractional part without leading
    /// zeros).
    pub open spec fn text(&self) -> Seq<char> {
        amount_text(self.integer_value(), self.decimal_value())
    }

    pub fn new(number: U256, decimals: U256) -> (r: IntegerDecimal)
        ensures
            r.number == number,
            r.decimals == decimals,
    {
        IntegerDecimal { number, decimals }
    }

    /// The whole part, `number / 10^decimals`.
    pub fn integer(&self) -> (r: U256)
        requires
            self.scale_fits(),
        ensures
            r@ == self.integer_value(),
            r@ == self.number@ as int / pow(10, self.decimals@),
    {
        let divisor = self.scale();
        let q = self.number.checked_div(&divisor);
        q.unwrap()
    }

    /// The fractional part, `number % 10^decimals` (zero without decimals).
    pub fn decimal(&self) -> (r: U256)
        requires
            self.decimals@ == 0 || self.scale_fits(),
        ensures
            r@ == self.decimal_value(),
            r@ == (if self.decimals@ == 0 {
                0
            } else {
                self.number@ as int % pow(10, self.decimals@)
            }),
    {
        if self.decimals.is_zero() {
            return U256::zero();
        }
        let divisor = self.scale();
        let rem = self.number.checked_rem(&divisor);
        rem.unwrap()
    }

    /// `10^decimals`.
    fn scale(&self) -> (r: U256)
        requires
            self.scale_fits(),
        ensures
            r@ == unit_scale(self.decimals@),
            r@ == pow(10, self.decimals@),
            r@ > 0,
    {
        proof {
            lemma_pow_positive(10, self.decimals@);
        }
        let ten = U256::from_u64(10);
        let p = ten.checked_pow(&self.decimals);
        p.unwrap()
    }

    /// "{integer}.{decimal}", both parts in decimal digits.
    pub fn to_string(&self) -> (r: String)
        requires
            self.scale_fits(),
        ensures
            r@ == self.text(),
            r@ == decimal_digits((self.number@ as int / pow(10, self.decimals@)) as nat) + seq!['.']
                + decimal_digits(
                if self.decimals@ == 0 {
                    0
                } else {
                    (self.number@ as int % pow(10, self.decimals@)) as nat
                },
            ),
    {
        let whole = self.integer();
        let fraction = self.decimal();
        let mut text = whole.to_decimal_string();
        proof {
            reveal_strlit(".");
        }
        text.append(".");
        let fraction_text = fraction.to_decimal_string();
        text.append(fraction_text.as_str());
        text
    }
}

/// "{whole}.{fraction}" in decimal digits.
pub open spec fn amount_text(whole: nat, fraction: nat) -> Seq<char> {
    decimal_digits(whole) + seq!['.'] + decimal_digits(fraction)
}

/// A character '0' to '9'.
pub open spec fn is_digit(c: char) -> bool {
    '0' <= c && c <= '9'
}

/// The number that a string of decimal digits stands for.
pub open spec fn digits_value(s: Seq<char>) -> nat
    decreases s.len(),
{
    if s.len() == 0 {
        0
    } else {
        digits_value(s.drop_last()) * 10 + ((s.last() as int - 48) as nat)
    }
}

/// The digits of a number are all decimal digits, at least one, and read back
/// as the number.
pub proof fn lemma_decimal_digits_read_back(n: nat)
    ensures
        decimal_digits(n).len() >= 1,
        forall|i: int| 0 <= i < decimal_digits(n).len() ==> is_digit(#[trigger] decimal_digits(n)[i]),
        digits_value(decimal_digits(n)) == n,
    decreases n,
{
    assert(digit_char(n % 10) as int == 48 + n % 10);
    if n < 10 {
        assert(decimal_digits(n) == seq![digit_char(n)]);
        assert(seq![digit_char(n)].drop_last() =~= Seq::<char>::empty());
        assert(digits_value(Seq::<char>::empty()) == 0);
    } else {
        lemma_decimal_digits_read_back(n / 10);
        let s = decimal_digits(n / 10).push(digit_char(n % 10));
        assert(s.drop_last() =~= decimal_digits(n / 10));
        assert(forall|i: int| 0 <= i < s.len() - 1 ==> s[i] == decimal_digits(n / 10)[i]);
    }
}

/// The whole and fractional parts put back together give the number, and the
/// fractional part is below one whole unit.
pub proof fn lemma_parts_recompose(x: IntegerDecimal)
    requires
        x.scale_fits(),
    ensures
        x.integer_value() * unit_scale(x.decimals@) + x.decimal_value() == x.number@,
        x.decimal_value() < unit_scale(x.decimals@),
        x.decimals@ == 0 ==> x.integer_value() == x.number@,
{
    let s = unit_scale(x.decimals@);
    lemma_pow_positive(10, x.decimals@);
    vstd::arithmetic::div_mod::lemma_fundamental_div_mod(x.number@ as int, s);
    vstd::arithmetic::div_mod::lemma_mod_bound(x.number@ as int, s);
    if x.decimals@ == 0 {
        assert(s == 1) by {
            vstd::arithmetic::power::lemma_pow0(10);
        }
        vstd::arithmetic::div_mod::lemma_div_basics(x.number@ as int);
    }
    vstd::arithmetic::div_mod::lemma_div_pos_is_pos(x.number@ as int, s);
    vstd::arithmetic::mul::lemma_mul_is_commutative(x.integer_value() as int, s);
}

/// One whole unit is one smallest unit without decimals, and each decimal
/// place multiplies it by ten: the scale is ten to the power `decimals`.
pub proof fn lemma_unit_scale(decimals: nat)
    ensures
        unit_scale(0) == 1,
        unit_scale(decimals + 1) == 10 * unit_scale(decimals),
        unit_scale(decimals) == pow(10, decimals),
        unit_scale(decimals) > 0,
{
    vstd::arithmetic::power::lemma_pow0(10);
    lemma_pow_positive(10, decimals);
    assert(pow(10, decimals + 1) == 10 * pow(10, decimals)) by {
        reveal_with_fuel(pow, 2);
    }
}

/// The whole part is the number divided by ten to the power `decimals`, the
/// fractional part the remainder (zero without decimals), and the text is the
/// digits of the whole part, a point, and the digits of the fractional part.
pub proof fn lemma_parts_by_powers(x: IntegerDecimal)
    ensures
        x.integer_value() == x.number@ as int / pow(10, x.decimals@),
        x.decimal_value() == (if x.decimals@ == 0 {
            0
        } else {
            x.number@ as int % pow(10, x.decimals@)
        }),
        x.text() == decimal_digits((x.number@ as int / pow(10, x.decimals@)) as nat) + seq!['.']
            + decimal_digits(
            if x.decimals@ == 0 {
                0
            } else {
                (x.number@ as int % pow(10, x.decimals@)) as nat
            },
        ),
{
    lemma_pow_positive(10, x.decimals@);
    vstd::arithmetic::div_mod::lemma_div_pos_is_pos(x.number@ as int, pow(10, x.decimals@));
    vstd::arithmetic::div_mod::lemma_mod_bound(x.number@ as int, pow(10, x.decimals@));
}

/// For a fixed number of decimals, the whole part grows with the number.
pub proof fn lemma_integer_monotone(a: IntegerDecimal, b: IntegerDecimal)
    requires
        a.decimals@ == b.decimals@,
        a.scale_fits(),
        a.number@ <= b.number@,
    ensures
        a.integer_value() <= b.integer_value(),
{
    let s = unit_scale(a.decimals@);
    lemma_pow_positive(10, a.decimals@);
    vstd::arithmetic::div_mod::lemma_div_is_ordered(a.number@ as int, b.number@ as int, s);
    vstd::arithmetic::div_mod::lemma_div_pos_is_pos(a.number@ as int, s);
}

/// An amount made of the fractional part of `x`, with the same decimals, has
/// that fractional part again and whole part zero.
pub proof fn lemma_fraction_rewrap(x: IntegerDecimal, y: IntegerDecimal)
    requires
        x.scale_fits(),
        y.number@ == x.decimal_value(),
        y.decimals@ == x.decimals@,
    ensures
        y.decimal_value() == x.decimal_value(),
        y.integer_value() == 0,
{
    let s = unit_scale(x.decimals@);
    lemma_parts_recompose(x);
    lemma_pow_positive(10, x.decimals@);
    vstd::arithmetic::div_mod::lemma_basic_div(y.number@ as int, s);
    if x.decimals@ != 0 {
        vstd::arithmetic::div_mod::lemma_small_mod(y.number@, s as nat);
    }
}

/// The text of an amount reads back: it has one point, digits on either side
/// of it, and the digits before it give the whole part and those after it the
/// fractional part.
pub proof fn lemma_text_reads_back(whole: nat, fraction: nat)
    ensures
        ({
            let s = amount_text(whole, fraction);
            let k = decimal_digits(whole).len() as int;
            &&& 0 < k < s.len() - 1
            &&& s[k] == '.'
            &&& forall|i: int| 0 <= i < s.len() && i != k ==> is_digit(#[trigger] s[i])
            &&& digits_value(s.take(k)) == whole
            &&& digits_value(s.skip(k + 1)) == fraction
        }),
{
    lemma_decimal_digits_read_back(whole);
    lemma_decimal_digits_read_back(fraction);
    let a = decimal_digits(whole);
    let b = decimal_digits(fraction);
    let s = amount_text(whole, fraction);
    let k = a.len() as int;
    assert(s.take(k) =~= a);
    assert(s.skip(k + 1) =~= b);
    assert forall|i: int| 0 <= i < s.len() && i != k implies is_digit(#[trigger] s[i]) by {
        if i < k {
            assert(s[i] == a[i]);
        } else {
            assert(s[i] == b[i - k - 1]);
        }
    }
}

} // verus!
