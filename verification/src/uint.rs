//! Unsigned 256-bit integers, held as four little-endian 64-bit limbs.
//!
//! The arithmetic that needs a big-integer algorithm (power, division,
//! remainder, decimal rendering) is done by the `ruint` type behind
//! `revm::primitives::U256`; everything else is verified here.
use vstd::arithmetic::power::pow;
use vstd::prelude::*;

verus! {

/// 2^64.
pub open spec fn limb_base() -> nat {
    18446744073709551616nat
}

/// 2^128.
pub open spec fn limb_base_2() -> nat {
    340282366920938463463374607431768211456nat
}

/// 2^192.
pub open spec fn limb_base_3() -> nat {
    6277101735386680763835789423207666416102355444464034512896nat
}

/// 2^256, one more than the largest value a `U256` holds.
pub open spec fn u256_modulus() -> nat {
    115792089237316195423570985008687907853269984665640564039457584007913129639936nat
}

/// The number that four little-endian 64-bit limbs stand for.
pub open spec fn limbs_value(limbs: [u64; 4]) -> nat {
    limbs[0] as nat + limbs[1] as nat * limb_base() + limbs[2] as nat * limb_base_2()
        + limbs[3] as nat * limb_base_3()
}

/// An unsigned 256-bit integer.
#[derive(Clone, Copy, Debug, PartialEq, Eq)]
pub struct U256 {
    /// Little-endian limbs: `limbs[0]` is the least significant.
    pub limbs: [u64; 4],
}

impl View for U256 {
    type V = nat;

    open spec fn view(&self) -> nat {
        limbs_value(self.limbs)
    }
}

/// Every `U256` is below 2^256.
pub proof fn lemma_u256_bound(x: U256)
    ensures
        x@ < u256_modulus(),
{
}

impl U256 {
    /// The integer from its little-endian limbs.
    pub fn from_limbs(limbs: [u64; 4]) -> (r: U256)
        ensures
            r.limbs == limbs,
            r@ == limbs_value(limbs),
    {
        U256 { limbs }
    }

    /// The little-endian limbs of the integer.
    pub fn into_limbs(self) -> (r: [u64; 4])
        ensures
            r == self.limbs,
            limbs_value(r) == self@,
    {
        self.limbs
    }

    /// The integer equal to `value`.
    pub fn from_u64(value: u64) -> (r: U256)
        ensures
            r@ == value,
    {
        U256 { limbs: [value, 0, 0, 0] }
    }

    /// Zero.
    pub fn zero() -> (r: U256)
        ensures
            r@ == 0,
    {
        U256 { limbs: [0, 0, 0, 0] }
    }

    /// Whether the integer is zero.
    pub fn is_zero(&self) -> (r: bool)
        ensures
            r == (self@ == 0),
    {
        self.limbs[0] == 0 && self.limbs[1] == 0 && self.limbs[2] == 0 && self.limbs[3] == 0
    }

    /// `self` raised to the power `exp`, or `None` where that is 2^256 or more.
    pub fn checked_pow(&self, exp: &U256) -> (r: Option<U256>)
        ensures
            r is Some <==> pow(self@ as int, exp@) < u256_modulus(),
            r matches Some(v) ==> v@ == pow(self@ as int, exp@),
    {
        ruint_checked_pow(self, exp)
    }

    /// `self / divisor`, or `None` where the divisor is zero.
    pub fn checked_div(&self, divisor: &U256) -> (r: Option<U256>)
        ensures
            r is Some <==> divisor@ != 0,
            r matches Some(v) ==> v@ == self@ / divisor@,
    {
        ruint_checked_div(self, divisor)
    }

    /// `self % divisor`, or `None` where the divisor is zero.
    pub fn checked_rem(&self, divisor: &U256) -> (r: Option<U256>)
        ensures
            r is Some <==> divisor@ != 0,
            r matches Some(v) ==> v@ == self@ % divisor@,
    {
        ruint_checked_rem(self, divisor)
    }

    /// The decimal rendering of the integer, without leading zeros.
    pub fn to_decimal_string(&self) -> (r: String)
        ensures
            r@ == decimal_digits(self@),
    {
        ruint_display(self)
    }
}

/// The character of a decimal digit.
pub open spec fn digit_char(d: nat) -> char {
    (48 + d) as char
}

/// The decimal digits of `n`, most significant first, without leading zeros
/// ("0" for zero).
pub open spec fn decimal_digits(n: nat) -> Seq<char>
    decreases n,
{
    if n < 10 {
        seq![digit_char(n)]
    } else {
        decimal_digits(n / 10).push(digit_char(n % 10))
    }
}

/// Calls `Uint::checked_pow` of `ruint` (the type behind
/// `revm::primitives::U256`). Its documentation and source
/// (`overflowing_pow`, exponentiation by squaring with an overflow flag)
/// give `Some(base^exp)` when that power is below 2^256 and `None` otherwise;
/// `from_limbs`/`into_limbs` convert one for one between the little-endian
/// limb arrays.
#[verifier::external_body]
fn ruint_checked_pow(base: &U256, exp: &U256) -> (r: Option<U256>)
    ensures
        r is Some <==> pow(base@ as int, exp@) < u256_modulus(),
        r matches Some(v) ==> v@ == pow(base@ as int, exp@),
{
    let b = revm::primitives::U256::from_limbs(base.limbs);
    let e = revm::primitives::U256::from_limbs(exp.limbs);
    b.checked_pow(e).map(|v| U256 { limbs: v.into_limbs() })
}

/// Calls `Uint::checked_div` of `ruint`: `None` when the divisor is zero,
/// otherwise `Some` of the quotient rounded down.
#[verifier::external_body]
fn ruint_checked_div(dividend: &U256, divisor: &U256) -> (r: Option<U256>)
    ensures
        r is Some <==> divisor@ != 0,
        r matches Some(v) ==> v@ == dividend@ / divisor@,
{
    let a = revm::primitives::U256::from_limbs(dividend.limbs);
    let b = revm::primitives::U256::from_limbs(divisor.limbs);
    a.checked_div(b).map(|v| U256 { limbs: v.into_limbs() })
}

/// Calls `Uint::checked_rem` of `ruint`: `None` when the divisor is zero,
/// otherwise `Some` of the remainder.
#[verifier::external_body]
fn ruint_checked_rem(dividend: &U256, divisor: &U256) -> (r: Option<U256>)
    ensures
        r is Some <==> divisor@ != 0,
        r matches Some(v) ==> v@ == dividend@ % divisor@,
{
    let a = revm::primitives::U256::from_limbs(dividend.limbs);
    let b = revm::primitives::U256::from_limbs(divisor.limbs);
    a.checked_rem(b).map(|v| U256 { limbs: v.into_limbs() })
}

/// Calls the `Display` impl of `ruint`'s `Uint` (base 10, no prefix, no
/// padding), which writes the decimal digits of the value without leading
/// zeros, and "0" for zero.
#[verifier::external_body]
fn ruint_display(x: &U256) -> (r: String)
    ensures
        r@ == decimal_digits(x@),
{
    format!("{}", revm::primitives::U256::from_limbs(x.limbs))
}

} // verus!
