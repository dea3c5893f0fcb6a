//! Unit conversion of token amounts, and reading addresses.

use crate::address::{parse_hex_address, Address};
use crate::text::{decimal_digits, digit_char, digit_of, push_decimal};
use crate::uint::{lemma_pow10_monotonic, pow10, u256_limit, u256_mul, U256};
use vstd::arithmetic::div_mod::*;
use vstd::prelude::*;
use vstd::string::*;

verus! {

/// A raw token amount in decimal units: `whole` units and `frac` parts of `10^decimals` of a
/// unit.
#[derive(Clone, Copy, Debug, PartialEq, Eq)]
pub struct Amount {
    pub whole: u128,
    pub frac: u128,
    pub decimals: u8,
}

impl Amount {
    /// The fraction is less than one unit, and the raw amount fits in 128 bits.
    pub open spec fn wf(&self) -> bool {
        &&& self.frac < pow10(self.decimals as nat)
        &&& self.raw_value() <= u128::MAX
    }

    /// The raw amount that the decimal amount stands for.
    pub open spec fn raw_value(&self) -> nat {
        self.whole as nat * pow10(self.decimals as nat) + self.frac as nat
    }

    /// The text of the amount: the whole units, and where the fraction is not zero, a point
    /// and the fraction's digits up to its last digit that is not zero.
    pub open spec fn text(&self) -> Seq<char> {
        if self.frac == 0 {
            decimal_digits(self.whole as nat)
        } else {
            decimal_digits(self.whole as nat) + seq!['.'] + fraction_digits(
                self.frac as nat,
                self.decimals as nat,
            )
        }
    }

    /// The raw amount: the inverse of `token_amount`.
    pub fn to_raw(&self) -> (r: u128)
        requires
            self.wf(),
        ensures
            r == self.raw_value(),
    {
        if self.decimals > 38 {
            proof {
                lemma_pow10_exceeds_u128(self.decimals as nat);
                if self.whole > 0 {
                    lemma_product_grows(self.whole as nat, pow10(self.decimals as nat));
                }
                assert(self.whole == 0);
                assert(0 * pow10(self.decimals as nat) == 0);
            }
            self.frac
        } else {
            let unit = pow10_u128(self.decimals);
            self.whole * unit + self.frac
        }
    }

    /// The amount as text.
    pub fn to_text(&self) -> (r: String)
        ensures
            r@ == self.text(),
    {
        let mut out = String::new();
        push_decimal(&mut out, self.whole);
        assert(out@ =~= decimal_digits(self.whole as nat));
        if self.frac != 0 {
            out.push('.');
            push_fraction(&mut out, self.frac, self.decimals);
        }
        out
    }
}

/// The digits of a fraction of `places` decimal places, from the first place to the last
/// one that is not zero. Each digit is taken modulo ten, which changes nothing for a fraction
/// below one unit.
pub open spec fn fraction_digits(frac: nat, places: nat) -> Seq<char>
    decreases places,
{
    if places == 0 || frac == 0 {
        Seq::empty()
    } else {
        let unit = pow10((places - 1) as nat);
        seq![digit_char(((frac / unit) % 10) as int)] + fraction_digits(
            frac % unit,
            (places - 1) as nat,
        )
    }
}

/// The decimal amount that `token_amount` gives.
pub open spec fn spec_token_amount(input: u128, decimal: u8) -> Amount {
    Amount {
        whole: (input as nat / pow10(decimal as nat)) as u128,
        frac: (input as nat % pow10(decimal as nat)) as u128,
        decimals: decimal,
    }
}

/// A product with a positive factor is at least the other factor.
proof fn lemma_product_grows(a: nat, b: nat)
    by (nonlinear_arith)
    requires
        a > 0,
    ensures
        a * b >= b,
{
}

/// Quotient and remainder put together give the number back.
proof fn lemma_div_mod_recompose(x: nat, unit: nat)
    by (nonlinear_arith)
    requires
        unit > 0,
    ensures
        (x / unit) * unit + x % unit == x,
        x / unit <= x,
        x % unit < unit,
{
}

/// Ten to the power 38 is the largest power of ten that fits in 128 bits.
pub proof fn lemma_pow10_38()
    ensures
        pow10(38) == 100000000000000000000000000000000000000,
        pow10(38) <= u128::MAX,
        pow10(39) > u128::MAX,
{
    reveal_with_fuel(pow10, 40);
}

/// From the power 39 on, a power of ten exceeds every 128-bit integer.
pub proof fn lemma_pow10_exceeds_u128(n: nat)
    requires
        n >= 39,
    ensures
        pow10(n) > u128::MAX,
{
    lemma_pow10_38();
    lemma_pow10_monotonic(39, n);
}

/// Ten to the power `n`, for the powers that fit in 128 bits: `n` up to 38.
pub fn pow10_u128(n: u8) -> (r: u128)
    requires
        n <= 38,
    ensures
        r == pow10(n as nat),
        r > 0,
{
    let mut r: u128 = 1;
    let mut i: u8 = 0;
    while i < n
        invariant
            i <= n <= 38,
            r == pow10(i as nat),
        decreases n - i,
    {
        proof {
            lemma_pow10_38();
            lemma_pow10_monotonic((i + 1) as nat, 38);
        }
        r = r * 10;
        i = i + 1;
    }
    proof {
        lemma_pow10_monotonic(0, n as nat);
    }
    r
}

/// Appends the digits of a fraction of `places` decimal places to `out`.
pub fn push_fraction(out: &mut String, frac: u128, places: u8)
    ensures
        final(out)@ == old(out)@ + fraction_digits(frac as nat, places as nat),
    decreases places,
{
    if places == 0 || frac == 0 {
        assert(out@ =~= old(out)@ + fraction_digits(frac as nat, places as nat));
        return ;
    }
    let rest = places - 1;
    if rest > 38 {
        proof {
            lemma_pow10_exceeds_u128(rest as nat);
            lemma_basic_div(frac as int, pow10(rest as nat) as int);
            lemma_small_mod(frac as nat, pow10(rest as nat));
        }
        out.push('0');
        push_fraction(out, frac, rest);
    } else {
        let unit = pow10_u128(rest);
        out.push(digit_of(((frac / unit) % 10) as u8));
        push_fraction(out, frac % unit, rest);
    }
    assert(out@ =~= old(out)@ + fraction_digits(frac as nat, places as nat));
}

/// Reads an address from hexadecimal text. The text must be an address.
pub fn address(text: &str) -> (r: Address)
    requires
        parse_hex_address(text@) is Some,
    ensures
        r@ == parse_hex_address(text@).unwrap(),
{
    Address::parse(text).unwrap()
}

/// A raw amount of a token with `decimal` decimal places, in decimal units.
pub fn token_amount(input: u128, decimal: u8) -> (r: Amount)
    ensures
        r == spec_token_amount(input, decimal),
        r.wf(),
        r.raw_value() == input,
{
    if decimal > 38 {
        proof {
            lemma_pow10_exceeds_u128(decimal as nat);
            lemma_basic_div(input as int, pow10(decimal as nat) as int);
            lemma_small_mod(input as nat, pow10(decimal as nat));
        }
        Amount { whole: 0, frac: input, decimals: decimal }
    } else {
        let unit = pow10_u128(decimal);
        proof {
            lemma_div_mod_recompose(input as nat, unit as nat);
        }
        Amount { whole: input / unit, frac: input % unit, decimals: decimal }
    }
}

/// `input` units of a token with 18 decimal places, as a raw amount.
pub fn to_1e18(input: u64) -> (r: U256)
    ensures
        r@ == input as nat * pow10(18),
{
    proof {
        lemma_pow10_18();
    }
    let ether = U256::exp10(18);
    let parsed = U256::from_u64(input);
    assert(parsed@ * ether@ < u256_limit()) by (nonlinear_arith)
        requires
            parsed@ <= u64::MAX,
            ether@ == 1000000000000000000,
            u256_limit() > 0xffff_ffff_ffff_ffff * 1000000000000000000,
    ;
    let r = u256_mul(parsed, ether);
    r
}

/// Ten to the power 18.
pub proof fn lemma_pow10_18()
    ensures
        pow10(18) == 1000000000000000000,
{
    reveal_with_fuel(pow10, 19);
}

/// Scaled back, a converted amount is the raw amount it was made from.
pub proof fn lemma_amount_round_trip(input: u128, decimal: u8)
    ensures
        spec_token_amount(input, decimal).wf(),
        spec_token_amount(input, decimal).raw_value() == input,
{
    let unit = pow10(decimal as nat);
    lemma_pow10_monotonic(0, decimal as nat);
    lemma_div_mod_recompose(input as nat, unit);
}

} // verus!
