//! Arithmetic that the curves take from `spl_math`, behind stated contracts.

use spl_math::checked_ceil_div::CheckedCeilDiv;
use spl_math::precise_number::PreciseNumber;
use spl_math::uint::U256;
use vstd::prelude::*;

verus! {

/// `a / b` rounded up, for `b > 0`.
pub open spec fn div_ceil(a: int, b: int) -> int {
    (a + b - 1) / b
}

/// `r` is the integer square root of `n`, rounded down.
pub open spec fn is_floor_sqrt(r: int, n: int) -> bool {
    0 <= r && r * r <= n && n < (r + 1) * (r + 1)
}

/// The integer square root of `n`, rounded down (for `n >= 0`).
pub open spec fn floor_sqrt_of(n: int) -> u128 {
    choose|r: u128| #[trigger] is_floor_sqrt(r as int, n)
}

/// Relies on `CheckedCeilDiv::checked_ceil_div` for `u128`: it fails when the divisor is zero
/// or exceeds the dividend; otherwise the quotient is rounded up and the divisor is then
/// lowered to the least value that still yields that quotient, `ceil(a / q)`.
#[verifier::external_body]
pub(crate) fn ceil_div(a: u128, b: u128) -> (r: Option<(u128, u128)>)
    ensures
        r is Some <==> (b != 0 && a >= b),
        r is Some ==> (r->0).0 == div_ceil(a as int, b as int),
        r is Some ==> (r->0).1 == div_ceil(a as int, (r->0).0 as int),
{
    a.checked_ceil_div(b)
}

/// Relies on `spl_math::approximations::sqrt` for `u128`: the bitwise integer square root,
/// rounded down.
#[verifier::external_body]
pub(crate) fn floor_sqrt(n: u128) -> (r: Option<u128>)
    ensures
        r is Some,
        r is Some ==> is_floor_sqrt(r->0 as int, n as int),
{
    spl_math::approximations::sqrt(n)
}

/// `2^64`, the base of the limbs of a 256-bit value.
pub open spec fn limb_base() -> int {
    0x1_0000_0000_0000_0000
}

/// `2^256`: 256-bit values lie below it.
pub open spec fn u256_bound() -> int {
    (u128::MAX + 1) * (u128::MAX + 1)
}

/// One in 12-digit fixed point.
pub open spec fn precise_one() -> int {
    1_000_000_000_000
}

/// One half in 12-digit fixed point, the rounding correction.
pub open spec fn precise_half() -> int {
    500_000_000_000
}

/// A 12-digit fixed-point number: the raw 256-bit value of a `PreciseNumber`, as four
/// 64-bit limbs, least significant first. It stands for `value() / 10^12`.
#[derive(Clone, Copy, Debug, PartialEq, Eq)]
pub struct Precise {
    pub limbs: [u64; 4],
}

impl Precise {
    /// The raw value.
    pub open spec fn value(self) -> int {
        self.limbs@[0] + limb_base() * (self.limbs@[1] + limb_base() * (self.limbs@[2] + limb_base()
            * self.limbs@[3]))
    }
}

/// An optional fixed-point number seen as its optional raw value.
pub open spec fn as_value(r: Option<Precise>) -> Option<int> {
    match r {
        Some(p) => Some(p.value()),
        None => None,
    }
}

/// `checked_add` on raw values.
pub open spec fn precise_add_spec(a: int, b: int) -> Option<int> {
    if a + b < u256_bound() {
        Some(a + b)
    } else {
        None
    }
}

/// `checked_sub` on raw values.
pub open spec fn precise_sub_spec(a: int, b: int) -> Option<int> {
    if a >= b {
        Some(a - b)
    } else {
        None
    }
}

/// `checked_div` on raw values: `(a * 10^12 + 10^12 / 2) / b` while `a * 10^12` fits, and
/// `((a + 10^12 / 2) / b) * 10^12` otherwise; none on a zero divisor or an overflow.
pub open spec fn precise_div_spec(a: int, b: int) -> Option<int> {
    if b == 0 {
        None
    } else if a * precise_one() < u256_bound() {
        if a * precise_one() + precise_half() < u256_bound() {
            Some((a * precise_one() + precise_half()) / b)
        } else {
            None
        }
    } else if a + precise_half() < u256_bound() && ((a + precise_half()) / b) * precise_one() < u256_bound() {
        Some(((a + precise_half()) / b) * precise_one())
    } else {
        None
    }
}

/// `checked_mul` on raw values: `(a * b + 10^12 / 2) / 10^12` while `a * b` fits; otherwise the
/// larger factor is truncated to whole units first; none on an overflow.
pub open spec fn precise_mul_spec(a: int, b: int) -> Option<int> {
    if a * b < u256_bound() {
        if a * b + precise_half() < u256_bound() {
            Some((a * b + precise_half()) / precise_one())
        } else {
            None
        }
    } else if a >= b {
        if (a / precise_one()) * b < u256_bound() {
            Some((a / precise_one()) * b)
        } else {
            None
        }
    } else {
        if (b / precise_one()) * a < u256_bound() {
            Some((b / precise_one()) * a)
        } else {
            None
        }
    }
}

/// A raw value whose rounding to whole units fits in 128 bits.
pub open spec fn imprecise_fits(v: int) -> bool {
    v + precise_half() < (u128::MAX + 1) * precise_one()
}

/// A raw value rounded to the nearest whole unit.
pub open spec fn imprecise_of(v: int) -> int {
    (v + precise_half()) / precise_one()
}

/// Relies on `PreciseNumber::new`: the raw value `value * 10^12`, which fits in 256 bits for
/// every 128-bit value.
#[verifier::external_body]
pub(crate) fn precise_new(value: u128) -> (r: Option<Precise>)
    ensures
        as_value(r) == Some(value * precise_one()),
{
    let n = PreciseNumber::new(value)?;
    Some(Precise { limbs: n.value.0 })
}

/// Relies on `PreciseNumber::checked_add`: the sum, none when it does not fit in 256 bits.
#[verifier::external_body]
pub(crate) fn precise_add(a: &Precise, b: &Precise) -> (r: Option<Precise>)
    ensures
        as_value(r) == precise_add_spec(a.value(), b.value()),
{
    let n = PreciseNumber { value: U256(a.limbs) }.checked_add(&PreciseNumber { value: U256(b.limbs) })?;
    Some(Precise { limbs: n.value.0 })
}

/// Relies on `PreciseNumber::checked_sub`: the difference, none when it would be negative.
#[verifier::external_body]
pub(crate) fn precise_sub(a: &Precise, b: &Precise) -> (r: Option<Precise>)
    ensures
        as_value(r) == precise_sub_spec(a.value(), b.value()),
{
    let n = PreciseNumber { value: U256(a.limbs) }.checked_sub(&PreciseNumber { value: U256(b.limbs) })?;
    Some(Precise { limbs: n.value.0 })
}

/// Relies on `PreciseNumber::checked_div`: the rounded quotient, in both of its branches.
#[verifier::external_body]
pub(crate) fn precise_div(a: &Precise, b: &Precise) -> (r: Option<Precise>)
    ensures
        as_value(r) == precise_div_spec(a.value(), b.value()),
{
    let n = PreciseNumber { value: U256(a.limbs) }.checked_div(&PreciseNumber { value: U256(b.limbs) })?;
    Some(Precise { limbs: n.value.0 })
}

/// Relies on `PreciseNumber::checked_mul`: the rounded product, in both of its branches.
#[verifier::external_body]
pub(crate) fn precise_mul(a: &Precise, b: &Precise) -> (r: Option<Precise>)
    ensures
        as_value(r) == precise_mul_spec(a.value(), b.value()),
{
    let n = PreciseNumber { value: U256(a.limbs) }.checked_mul(&PreciseNumber { value: U256(b.limbs) })?;
    Some(Precise { limbs: n.value.0 })
}

/// What `PreciseNumber::sqrt` returns for a raw value, as a raw value.
pub uninterp spec fn precise_sqrt_of(value: int) -> Option<int>;

/// Relies on `PreciseNumber::sqrt`: Newton's method for the square root, which fails above
/// `u128::MAX` whole units and returns zero for zero.
#[verifier::external_body]
pub(crate) fn precise_sqrt(a: &Precise) -> (r: Option<Precise>)
    ensures
        as_value(r) == precise_sqrt_of(a.value()),
        a.value() > u128::MAX * precise_one() ==> r is None,
        a.value() == 0 ==> as_value(r) == Some(0int),
{
    let n = PreciseNumber { value: U256(a.limbs) }.sqrt()?;
    Some(Precise { limbs: n.value.0 })
}

/// Relies on `PreciseNumber::to_imprecise`: the value rounded to the nearest whole unit. It
/// panics when that does not fit in 128 bits, which `requires` leaves out.
#[verifier::external_body]
pub(crate) fn precise_to_imprecise(a: &Precise) -> (r: Option<u128>)
    requires
        imprecise_fits(a.value()),
    ensures
        r == Some(imprecise_of(a.value()) as u128),
{
    PreciseNumber { value: U256(a.limbs) }.to_imprecise()
}

/// Whether `precise_to_imprecise` may be called on `a`.
pub(crate) fn fits_imprecise(a: &Precise) -> (r: bool)
    ensures
        r == imprecise_fits(a.value()),
{
    let w: u128 = 0x1_0000_0000_0000_0000;
    let hi: u128 = (a.limbs[3] as u128) * w + a.limbs[2] as u128;
    let lo: u128 = (a.limbs[1] as u128) * w + a.limbs[0] as u128;
    let one: u128 = 1_000_000_000_000;
    let half: u128 = 500_000_000_000;
    proof {
        let l = a.limbs@;
        assert(a.value() == lo + (u128::MAX + 1) * hi) by (nonlinear_arith)
            requires
                a.value() == l[0] + limb_base() * (l[1] + limb_base() * (l[2] + limb_base() * l[3])),
                hi == l[3] * limb_base() + l[2],
                lo == l[1] * limb_base() + l[0],
                limb_base() * limb_base() == u128::MAX + 1,
        ;
        let b = u128::MAX + 1;
        if hi < one - 1 {
            assert(lo + b * hi + half < b * one) by (nonlinear_arith)
                requires
                    hi <= one - 2,
                    lo < b,
                    half < b,
                    b > 0,
            ;
        } else if hi == one - 1 {
            assert(b * hi == b * one - b) by (nonlinear_arith)
                requires
                    hi == one - 1,
            ;
        } else {
            assert(b * hi >= b * one) by (nonlinear_arith)
                requires
                    hi >= one,
                    b > 0,
            ;
        }
    }
    hi < one - 1 || (hi == one - 1 && lo <= u128::MAX - half)
}

} // verus!
