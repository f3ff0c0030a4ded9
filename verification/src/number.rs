//! 256-bit unsigned integers and 18-digit fixed-point decimals.
//!
//! Both types hold four little-endian 64-bit words, the layout that
//! `cosmwasm_bignumber` computes on. Constants and conversions are written
//! here on the words. The arithmetic is that crate's: each operation at the
//! end of this file hands the words over, lets the crate compute, and takes
//! the words back, under a contract that states what the crate's source does.

use vstd::prelude::*;

verus! {

/// Atomic units in one whole: a [`Decimal256`] counts multiples of `10^-18`.
pub open spec fn unit() -> nat {
    1_000_000_000_000_000_000
}

/// First value that no longer fits in 256 bits, `2^256`.
pub open spec fn limit() -> nat {
    0x1_0000_0000_0000_0000_0000_0000_0000_0000_0000_0000_0000_0000_0000_0000_0000_0000nat
}

/// The number that four little-endian 64-bit words spell.
pub open spec fn words_value(words: [u64; 4]) -> nat {
    (words[0] as nat) + (words[1] as nat) * 0x1_0000_0000_0000_0000nat + (words[2] as nat)
        * 0x1_0000_0000_0000_0000_0000_0000_0000_0000nat + (words[3] as nat)
        * 0x1_0000_0000_0000_0000_0000_0000_0000_0000_0000_0000_0000_0000nat
}

/// An unsigned integer below `2^256`.
#[derive(Clone, Copy, Debug, PartialEq, Eq)]
pub struct Uint256 {
    /// Little-endian 64-bit words.
    pub words: [u64; 4],
}

/// An unsigned fixed-point number with 18 fractional digits, held as its
/// count of atomic units.
#[derive(Clone, Copy, Debug, PartialEq, Eq)]
pub struct Decimal256 {
    /// Little-endian 64-bit words of the count of atomic units.
    pub words: [u64; 4],
}

impl View for Uint256 {
    type V = nat;

    open spec fn view(&self) -> nat {
        words_value(self.words)
    }
}

impl View for Decimal256 {
    type V = nat;

    /// The count of atomic units: the value times `10^18`.
    open spec fn view(&self) -> nat {
        words_value(self.words)
    }
}

impl Uint256 {
    /// Zero.
    pub fn zero() -> (r: Uint256)
        ensures
            r@ == 0,
    {
        Uint256 { words: [0, 0, 0, 0] }
    }

    /// The greatest value, `2^256 - 1`.
    pub fn max_value() -> (r: Uint256)
        ensures
            r@ == limit() - 1,
    {
        Uint256 { words: [u64::MAX, u64::MAX, u64::MAX, u64::MAX] }
    }

    /// The greatest integer whose decimal form `n * 10^18` fits in 256 bits.
    pub fn max_whole() -> (r: Uint256)
        ensures
            r@ == (limit() - 1) / (unit() as int),
    {
        Uint256 {
            words: [0x5afe_688c_928e_1f21, 0x5fe6_45cc_4873_f9e6, 0x725d_d1d2_43ab_a0e7, 0x12],
        }
    }

    /// Whether the value is zero.
    pub fn is_zero(&self) -> (r: bool)
        ensures
            r == (self@ == 0),
    {
        self.words[0] == 0 && self.words[1] == 0 && self.words[2] == 0 && self.words[3] == 0
    }

    /// The 128-bit integer, widened.
    pub fn from_u128(value: u128) -> (r: Uint256)
        ensures
            r@ == value,
    {
        let low: u64 = (value % 0x1_0000_0000_0000_0000) as u64;
        let high: u64 = (value / 0x1_0000_0000_0000_0000) as u64;
        Uint256 { words: [low, high, 0, 0] }
    }

    /// Whether the value fits in 128 bits.
    pub fn fits_u128(&self) -> (r: bool)
        ensures
            r == (self@ <= u128::MAX),
    {
        self.words[2] == 0 && self.words[3] == 0
    }

    /// The value as a 128-bit integer.
    pub fn to_u128(&self) -> (r: u128)
        requires
            self@ <= u128::MAX,
        ensures
            r == self@,
    {
        let low: u128 = self.words[0] as u128;
        let high: u128 = self.words[1] as u128;
        high * 0x1_0000_0000_0000_0000 + low
    }
}

impl Decimal256 {
    /// Zero.
    pub fn zero() -> (r: Decimal256)
        ensures
            r@ == 0,
    {
        Decimal256 { words: [0, 0, 0, 0] }
    }

    /// One whole.
    pub fn one() -> (r: Decimal256)
        ensures
            r@ == unit(),
    {
        Decimal256 { words: [1_000_000_000_000_000_000, 0, 0, 0] }
    }

    /// The greatest value, `2^256 - 1` atomic units.
    pub fn max_value() -> (r: Decimal256)
        ensures
            r@ == limit() - 1,
    {
        Decimal256 { words: [u64::MAX, u64::MAX, u64::MAX, u64::MAX] }
    }

    /// The greatest value that can still be divided: the division scales its
    /// dividend by `10^18` first, and the scaled dividend has to fit in 256
    /// bits.
    pub fn max_dividend() -> (r: Decimal256)
        ensures
            r@ == (limit() - 1) / (unit() as int),
    {
        Decimal256 {
            words: [0x5afe_688c_928e_1f21, 0x5fe6_45cc_4873_f9e6, 0x725d_d1d2_43ab_a0e7, 0x12],
        }
    }

    /// Whether the value is zero.
    pub fn is_zero(&self) -> (r: bool)
        ensures
            r == (self@ == 0),
    {
        self.words[0] == 0 && self.words[1] == 0 && self.words[2] == 0 && self.words[3] == 0
    }
}

/// `cosmwasm_bignumber::Decimal256::from_uint256`: the integer as a decimal,
/// which in atomic units is the integer times `10^18`. The crate multiplies
/// with a checked product and panics when it passes 256 bits.
#[verifier::external_body]
pub(crate) fn decimal_from_uint256(value: Uint256) -> (r: Decimal256)
    requires
        value@ * unit() < limit(),
    ensures
        r@ == value@ * unit(),
{
    let value = cosmwasm_bignumber::Uint256(bigint::U256(value.words));
    let r = cosmwasm_bignumber::Decimal256::from_uint256(value);
    Decimal256 { words: (r.0).0 }
}

/// `Decimal256 + Decimal256` of `cosmwasm_bignumber`: the sum of the atomic
/// units. The crate panics when the sum passes 256 bits.
#[verifier::external_body]
pub(crate) fn decimal_add(a: Decimal256, b: Decimal256) -> (r: Decimal256)
    requires
        a@ + b@ < limit(),
    ensures
        r@ == a@ + b@,
{
    let a = cosmwasm_bignumber::Decimal256(bigint::U256(a.words));
    let b = cosmwasm_bignumber::Decimal256(bigint::U256(b.words));
    let r = a + b;
    Decimal256 { words: (r.0).0 }
}

/// `Decimal256 - Decimal256` of `cosmwasm_bignumber`: the difference of the
/// atomic units. The crate asserts that the left side is not the smaller.
#[verifier::external_body]
pub(crate) fn decimal_sub(a: Decimal256, b: Decimal256) -> (r: Decimal256)
    requires
        a@ >= b@,
    ensures
        r@ == a@ - b@,
{
    let a = cosmwasm_bignumber::Decimal256(bigint::U256(a.words));
    let b = cosmwasm_bignumber::Decimal256(bigint::U256(b.words));
    let r = a - b;
    Decimal256 { words: (r.0).0 }
}

/// `Decimal256 / Decimal256` of `cosmwasm_bignumber`: the dividend's atomic
/// units times `10^18`, divided by the divisor's atomic units and rounded
/// down. The crate asserts that the divisor is not zero and panics when the
/// scaled dividend passes 256 bits.
#[verifier::external_body]
pub(crate) fn decimal_div(a: Decimal256, b: Decimal256) -> (r: Decimal256)
    requires
        b@ > 0,
        a@ * unit() < limit(),
    ensures
        r@ == (a@ * unit()) / b@,
{
    let a = cosmwasm_bignumber::Decimal256(bigint::U256(a.words));
    let b = cosmwasm_bignumber::Decimal256(bigint::U256(b.words));
    let r = a / b;
    Decimal256 { words: (r.0).0 }
}

/// `Decimal256 > Decimal256` of `cosmwasm_bignumber`, whose derived order is
/// that of the atomic units.
#[verifier::external_body]
pub(crate) fn decimal_gt(a: Decimal256, b: Decimal256) -> (r: bool)
    ensures
        r == (a@ > b@),
{
    let a = cosmwasm_bignumber::Decimal256(bigint::U256(a.words));
    let b = cosmwasm_bignumber::Decimal256(bigint::U256(b.words));
    a > b
}

/// `Uint256 + Uint256` of `cosmwasm_bignumber`. The crate panics when the sum
/// passes 256 bits.
#[verifier::external_body]
pub(crate) fn uint_add(a: Uint256, b: Uint256) -> (r: Uint256)
    requires
        a@ + b@ < limit(),
    ensures
        r@ == a@ + b@,
{
    let a = cosmwasm_bignumber::Uint256(bigint::U256(a.words));
    let b = cosmwasm_bignumber::Uint256(bigint::U256(b.words));
    let r = a + b;
    Uint256 { words: (r.0).0 }
}

/// `Uint256 - Uint256` of `cosmwasm_bignumber`. The crate asserts that the
/// left side is not the smaller.
#[verifier::external_body]
pub(crate) fn uint_sub(a: Uint256, b: Uint256) -> (r: Uint256)
    requires
        a@ >= b@,
    ensures
        r@ == a@ - b@,
{
    let a = cosmwasm_bignumber::Uint256(bigint::U256(a.words));
    let b = cosmwasm_bignumber::Uint256(bigint::U256(b.words));
    let r = a - b;
    Uint256 { words: (r.0).0 }
}

/// `Uint256 > Uint256` of `cosmwasm_bignumber`, whose derived order is that
/// of the integers.
#[verifier::external_body]
pub(crate) fn uint_gt(a: Uint256, b: Uint256) -> (r: bool)
    ensures
        r == (a@ > b@),
{
    let a = cosmwasm_bignumber::Uint256(bigint::U256(a.words));
    let b = cosmwasm_bignumber::Uint256(bigint::U256(b.words));
    a > b
}

/// `Uint256 * Decimal256` of `cosmwasm_bignumber`: the integer times the
/// decimal, rounded down to an integer, computed as the integer times the
/// atomic units, divided by `10^18`. The crate panics when that product
/// passes 256 bits.
#[verifier::external_body]
pub(crate) fn uint_mul_decimal(a: Uint256, b: Decimal256) -> (r: Uint256)
    requires
        a@ * b@ < limit(),
    ensures
        r@ == (a@ * b@) / unit(),
{
    let a = cosmwasm_bignumber::Uint256(bigint::U256(a.words));
    let b = cosmwasm_bignumber::Decimal256(bigint::U256(b.words));
    let r = a * b;
    Uint256 { words: (r.0).0 }
}

/// `Uint256 / Decimal256` of `cosmwasm_bignumber`: the integer divided by the
/// decimal, rounded down to an integer, computed as the integer times
/// `10^18`, divided by the atomic units. The crate asserts that the divisor
/// is not zero and panics when the scaled integer passes 256 bits.
#[verifier::external_body]
pub(crate) fn uint_div_decimal(a: Uint256, b: Decimal256) -> (r: Uint256)
    requires
        b@ > 0,
        a@ * unit() < limit(),
    ensures
        r@ == (a@ * unit()) / b@,
{
    let a = cosmwasm_bignumber::Uint256(bigint::U256(a.words));
    let b = cosmwasm_bignumber::Decimal256(bigint::U256(b.words));
    let r = a / b;
    Uint256 { words: (r.0).0 }
}

/// `bigint::U256::overflowing_mul` on the words of an integer and of a
/// decimal's atomic units, of which only the flag is kept. The crate forms
/// the full 512-bit product and raises the flag where its upper half is not
/// zero.
#[verifier::external_body]
pub(crate) fn product_overflows(a: Uint256, b: Decimal256) -> (r: bool)
    ensures
        r == (a@ * b@ >= limit()),
{
    let (_, overflow) = bigint::U256(a.words).overflowing_mul(bigint::U256(b.words));
    overflow
}

} // verus!
