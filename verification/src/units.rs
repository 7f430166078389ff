//! Fixed-point units and the saturating arithmetic that all entities share.
use vstd::prelude::*;

verus! {

/// Position units in one pixel.
pub const UNITS_PER_PIXEL: i64 = 1_000_000;

/// Velocity units in one pixel per second.
pub const SPEED_UNITS_PER_PIXEL: i64 = 1_000;

/// Frame units in one animation frame.
pub const UNITS_PER_FRAME: u64 = 1_000;

/// The value of `x` brought into the range of `i64`.
pub open spec fn clamp_i64(x: int) -> i64 {
    if x < i64::MIN {
        i64::MIN
    } else if x > i64::MAX {
        i64::MAX
    } else {
        x as i64
    }
}

/// The value of `x` brought into the range of `u64`.
pub open spec fn clamp_u64(x: int) -> u64 {
    if x < 0 {
        0
    } else if x > u64::MAX {
        u64::MAX
    } else {
        x as u64
    }
}

/// The milliseconds from `earlier` to `later`, zero where `later` is not after `earlier`.
pub open spec fn elapsed_spec(earlier: u64, later: u64) -> u64 {
    if later >= earlier {
        (later - earlier) as u64
    } else {
        0
    }
}

/// `lo` where `x` is below it, else `hi` where `x` is above it, else `x`;
/// the upper bound wins where the bounds cross.
pub open spec fn clamp_between(x: int, lo: int, hi: int) -> int {
    let raised = if x < lo { lo } else { x };
    if raised > hi { hi } else { raised }
}

/// Adding a multiple of the divisor moves the quotient and keeps the remainder.
pub proof fn lemma_div_mod_shift(x: int, k: int, d: int)
    requires
        d > 0,
    ensures
        (x + k * d) / d == x / d + k,
        (x + k * d) % d == x % d,
{
    vstd::arithmetic::div_mod::lemma_fundamental_div_mod(x, d);
    vstd::arithmetic::div_mod::lemma_mod_bound(x, d);
    let q = x / d + k;
    let r = x % d;
    assert(x + k * d == q * d + r) by (nonlinear_arith)
        requires
            x == d * (x / d) + r,
            q == x / d + k,
    ;
    vstd::arithmetic::div_mod::lemma_fundamental_div_mod_converse(x + k * d, d, q, r);
}

proof fn lemma_product_bounds(rate: i64, dt: u64)
    ensures
        -0x8000_0000_0000_0000 * 0xffff_ffff_ffff_ffff <= rate * dt,
        rate * dt <= 0x7fff_ffff_ffff_ffff * 0xffff_ffff_ffff_ffff,
{
    assert(-0x8000_0000_0000_0000 * 0xffff_ffff_ffff_ffff <= rate * dt
        && rate * dt <= 0x7fff_ffff_ffff_ffff * 0xffff_ffff_ffff_ffff) by (nonlinear_arith)
        requires
            -0x8000_0000_0000_0000 <= rate <= 0x7fff_ffff_ffff_ffff,
            0 <= dt <= 0xffff_ffff_ffff_ffff,
    ;
}

/// Narrows a wide integer to `i64`, saturating at both ends.
pub fn saturate_i64(x: i128) -> (r: i64)
    ensures
        r == clamp_i64(x as int),
{
    if x < i64::MIN as i128 {
        i64::MIN
    } else if x > i64::MAX as i128 {
        i64::MAX
    } else {
        x as i64
    }
}

/// `a + b`, saturating.
pub fn add_saturating(a: i64, b: i64) -> (r: i64)
    ensures
        r == clamp_i64(a + b),
{
    saturate_i64(a as i128 + b as i128)
}

/// `a - b`, saturating.
pub fn sub_saturating(a: i64, b: i64) -> (r: i64)
    ensures
        r == clamp_i64(a - b),
{
    saturate_i64(a as i128 - b as i128)
}

/// `base + rate * dt`, saturating: one integration step of a quantity that
/// changes by `rate` per millisecond-unit over `dt` milliseconds.
pub fn add_scaled(base: i64, rate: i64, dt: u64) -> (r: i64)
    ensures
        r == clamp_i64(base + rate * dt),
{
    proof {
        lemma_product_bounds(rate, dt);
    }
    let product: i128 = (rate as i128) * (dt as i128);
    saturate_i64(base as i128 + product)
}

/// `base + rate * dt` for unsigned quantities, saturating.
pub fn add_scaled_u64(base: u64, rate: u64, dt: u64) -> (r: u64)
    ensures
        r == clamp_u64(base + rate * dt),
{
    assert(0 <= rate * dt <= 0xffff_ffff_ffff_ffff * 0xffff_ffff_ffff_ffff) by (nonlinear_arith)
        requires
            0 <= rate <= 0xffff_ffff_ffff_ffff,
            0 <= dt <= 0xffff_ffff_ffff_ffff,
    ;
    let product: u128 = (rate as u128) * (dt as u128);
    let sum: u128 = base as u128 + product;
    if sum > u64::MAX as u128 {
        u64::MAX
    } else {
        sum as u64
    }
}

/// The instant `duration` milliseconds after `instant`, saturating.
pub fn instant_after(instant: u64, duration: u64) -> (r: u64)
    ensures
        r == clamp_u64(instant + duration),
{
    if duration > u64::MAX - instant {
        u64::MAX
    } else {
        instant + duration
    }
}

/// The milliseconds from `earlier` to `later`; zero where time did not advance.
pub fn elapsed(earlier: u64, later: u64) -> (r: u64)
    ensures
        r == elapsed_spec(earlier, later),
{
    if later >= earlier {
        later - earlier
    } else {
        0
    }
}

/// The quotient of `a` by a positive `b`, rounded toward zero.
pub open spec fn quotient(a: int, b: int) -> int {
    if a >= 0 {
        a / b
    } else {
        -((-a) / b)
    }
}

/// `a * b / c`, rounded toward zero and saturating: a value scaled by the
/// fraction `b / c`.
pub fn mul_div(a: i64, b: i64, c: i64) -> (r: i64)
    requires
        c > 0,
    ensures
        r == clamp_i64(quotient(a * b, c as int)),
{
    assert(-0x8000_0000_0000_0000 * 0x8000_0000_0000_0000 <= a * b <= 0x8000_0000_0000_0000
        * 0x8000_0000_0000_0000) by (nonlinear_arith)
        requires
            -0x8000_0000_0000_0000 <= a <= 0x7fff_ffff_ffff_ffff,
            -0x8000_0000_0000_0000 <= b <= 0x7fff_ffff_ffff_ffff,
    ;
    let product: i128 = (a as i128) * (b as i128);
    saturate_i64(product / (c as i128))
}

/// Position units of a whole number of pixels.
pub open spec fn pixels_spec(pixels: int) -> i64 {
    clamp_i64(pixels * UNITS_PER_PIXEL)
}

/// Position units of a whole number of pixels, saturating.
pub fn pixels(count: i64) -> (r: i64)
    ensures
        r == pixels_spec(count as int),
{
    saturate_i64(count as i128 * 1_000_000)
}

} // verus!
