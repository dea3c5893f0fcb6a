//! Unsigned 256-bit integers, as four 64-bit words.

use vstd::prelude::*;

verus! {

/// Two to the power 64: the weight of the second word.
pub open spec fn word_1() -> nat {
    0x1_0000_0000_0000_0000nat
}

/// Two to the power 128: the weight of the third word.
pub open spec fn word_2() -> nat {
    0x1_0000_0000_0000_0000_0000_0000_0000_0000nat
}

/// Two to the power 192: the weight of the fourth word.
pub open spec fn word_3() -> nat {
    0x1_0000_0000_0000_0000_0000_0000_0000_0000_0000_0000_0000_0000nat
}

/// Two to the power 256: one more than the largest value.
pub open spec fn u256_limit() -> nat {
    0x1_0000_0000_0000_0000_0000_0000_0000_0000_0000_0000_0000_0000_0000_0000_0000_0000nat
}

/// The number that four words stand for, the lowest word first.
pub open spec fn words_value(words: Seq<u64>) -> nat {
    words[0] as nat + words[1] as nat * word_1() + words[2] as nat * word_2() + words[3] as nat
        * word_3()
}

/// Ten to the power `n`.
pub open spec fn pow10(n: nat) -> nat
    decreases n,
{
    if n == 0 {
        1
    } else {
        10 * pow10((n - 1) as nat)
    }
}

/// An unsigned integer below two to the power 256. The words are held lowest first.
#[derive(Clone, Copy, Debug, PartialEq, Eq)]
pub struct U256 {
    pub limbs: [u64; 4],
}

impl View for U256 {
    type V = nat;

    open spec fn view(&self) -> nat {
        words_value(self.limbs@)
    }
}

/// Computes a power of ten with `exp10` of ethers' `U256` (of the uint crate).
///
/// Trusted: that function returns ten to the power `n`, and panics where the power does not
/// fit; the contract leaves those `n` out.
#[verifier::external_body]
fn u256_exp10(n: usize) -> (r: U256)
    requires
        pow10(n as nat) < u256_limit(),
    ensures
        r@ == pow10(n as nat),
{
    U256 { limbs: ethers::types::U256::exp10(n).0 }
}

/// Multiplies with the `*` of ethers' `U256` (of the uint crate).
///
/// Trusted: that operator returns the product, and panics where the product does not fit;
/// the contract leaves those operands out.
#[verifier::external_body]
pub(crate) fn u256_mul(a: U256, b: U256) -> (r: U256)
    requires
        a@ * b@ < u256_limit(),
    ensures
        r@ == a@ * b@,
{
    U256 { limbs: (ethers::types::U256(a.limbs) * ethers::types::U256(b.limbs)).0 }
}

impl U256 {
    /// Zero.
    pub fn zero() -> (r: U256)
        ensures
            r@ == 0,
    {
        U256 { limbs: [0, 0, 0, 0] }
    }

    /// The value of a 64-bit integer.
    pub fn from_u64(x: u64) -> (r: U256)
        ensures
            r@ == x,
    {
        U256 { limbs: [x, 0, 0, 0] }
    }

    /// The value of a 128-bit integer.
    pub fn from_u128(x: u128) -> (r: U256)
        ensures
            r@ == x,
    {
        let lo = (x % 0x1_0000_0000_0000_0000u128) as u64;
        let hi = (x / 0x1_0000_0000_0000_0000u128) as u64;
        U256 { limbs: [lo, hi, 0, 0] }
    }

    /// Whether the value fits in 128 bits.
    pub fn fits_u128(&self) -> (r: bool)
        ensures
            r == (self@ <= u128::MAX),
    {
        self.limbs[2] == 0 && self.limbs[3] == 0
    }

    /// The value as a 128-bit integer; the value must fit.
    pub fn as_u128(&self) -> (r: u128)
        requires
            self@ <= u128::MAX,
        ensures
            r == self@,
    {
        self.limbs[0] as u128 + (self.limbs[1] as u128) * 0x1_0000_0000_0000_0000u128
    }

    /// The value as a 128-bit integer, or `None` where it does not fit.
    pub fn to_u128(&self) -> (r: Option<u128>)
        ensures
            r == if self@ <= u128::MAX { Some(self@ as u128) } else { None },
    {
        if self.fits_u128() {
            Some(self.as_u128())
        } else {
            None
        }
    }

    /// Ten to the power `n`, for the powers that fit: `n` up to 77.
    pub fn exp10(n: usize) -> (r: U256)
        requires
            n <= 77,
        ensures
            r@ == pow10(n as nat),
    {
        proof {
            lemma_pow10_77();
            lemma_pow10_monotonic(n as nat, 77);
        }
        u256_exp10(n)
    }
}

/// Powers of ten grow with the exponent.
pub proof fn lemma_pow10_monotonic(a: nat, b: nat)
    requires
        a <= b,
    ensures
        0 < pow10(a) <= pow10(b),
    decreases b,
{
    if b == 0 {
    } else if a == b {
        lemma_pow10_monotonic(0, (b - 1) as nat);
    } else {
        lemma_pow10_monotonic(a, (b - 1) as nat);
    }
}

/// Ten to the power 77 is the largest power of ten below two to the power 256.
pub proof fn lemma_pow10_77()
    ensures
        pow10(77) < u256_limit(),
{
    reveal_with_fuel(pow10, 78);
}

} // verus!
