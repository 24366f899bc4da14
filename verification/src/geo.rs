//! The circular radius filter of a query, and its validation.
//!
//! Coordinates and radius are IEEE-754 single-precision numbers, held by their
//! bit patterns. The rules of validation are stated over the numbers those
//! patterns denote, and the tests on the patterns are proved to decide them.

use vstd::prelude::*;
use vstd::arithmetic::power2::{
    pow2,
    lemma_pow2_pos,
    lemma_pow2_unfold,
    lemma_pow2_adds,
    lemma_pow2_strictly_increases,
    lemma2_to64,
};
use crate::status::Failure;

verus! {

/// A circle on the globe: a centre in degrees and a radius in metres, each a
/// single-precision number given by its bit pattern.
#[derive(Clone, Copy, Debug, PartialEq, Eq, Structural)]
pub struct Circle {
    pub lat: u32,
    pub long: u32,
    pub radius: u32,
}

/// The pattern of 90.0.
pub const LAT_LIMIT: u32 = 0x42b4_0000;

/// The pattern of 180.0.
pub const LONG_LIMIT: u32 = 0x4334_0000;

/// The pattern of positive infinity; every larger magnitude is a NaN.
pub const INFINITY: u32 = 0x7f80_0000;

/// The pattern with its sign bit cleared.
pub open spec fn magnitude(bits: u32) -> nat {
    (bits % 0x8000_0000) as nat
}

/// Whether the sign bit is set.
pub open spec fn is_negative(bits: u32) -> bool {
    bits >= 0x8000_0000
}

/// Whether the pattern denotes a number: neither an infinity nor a NaN.
pub open spec fn is_finite(bits: u32) -> bool {
    magnitude(bits) < 0x7f80_0000
}

/// For a magnitude `m` that denotes the number `x`, the integer `x * 2^149`.
///
/// A biased exponent of zero marks a subnormal, whose value is the fraction
/// times `2^-149`. Any other exponent `e` gives `(2^23 + fraction) * 2^(e - 150)`.
pub open spec fn scaled(m: nat) -> nat {
    let e = m / 0x80_0000;
    let f = m % 0x80_0000;
    if e == 0 {
        f
    } else {
        (0x80_0000 + f) * pow2((e - 1) as nat)
    }
}

/// The whole number `d` on the scale of [`scaled`].
pub open spec fn whole(d: nat) -> nat {
    d * pow2(149)
}

/// The latitude lies in [-90, 90].
pub open spec fn latitude_ok(bits: u32) -> bool {
    is_finite(bits) && scaled(magnitude(bits)) <= whole(90)
}

/// The longitude lies in (-180, 180].
pub open spec fn longitude_ok(bits: u32) -> bool {
    &&& is_finite(bits)
    &&& scaled(magnitude(bits)) <= whole(180)
    &&& !(is_negative(bits) && scaled(magnitude(bits)) == whole(180))
}

/// What validation answers: the first rule broken, in the order latitude,
/// longitude, radius.
pub open spec fn circle_verdict(c: Circle) -> Result<(), Failure> {
    if !latitude_ok(c.lat) {
        Err(Failure::LatitudeOutOfRange)
    } else if !longitude_ok(c.long) {
        Err(Failure::LongitudeOutOfRange)
    } else if !is_finite(c.radius) {
        Err(Failure::RadiusNotFinite)
    } else {
        Ok(())
    }
}

/// Larger magnitudes denote larger numbers.
pub proof fn lemma_scaled_increases(a: nat, b: nat)
    requires
        a < b,
    ensures
        scaled(a) < scaled(b),
{
    let ea = a / 0x80_0000;
    let fa = a % 0x80_0000;
    let eb = b / 0x80_0000;
    let fb = b % 0x80_0000;
    assert(ea < eb || (ea == eb && fa < fb));
    if ea == eb {
        if ea != 0 {
            let p = pow2((ea - 1) as nat);
            lemma_pow2_pos((ea - 1) as nat);
            assert((0x80_0000 + fa) * p < (0x80_0000 + fb) * p) by (nonlinear_arith)
                requires
                    fa < fb,
                    p > 0,
            ;
        }
    } else {
        let pb = pow2((eb - 1) as nat);
        lemma_pow2_pos((eb - 1) as nat);
        assert(0x80_0000 * pb <= (0x80_0000 + fb) * pb) by (nonlinear_arith)
            requires
                fb >= 0,
                pb > 0,
        ;
        if ea == 0 {
            assert(0x80_0000 <= 0x80_0000 * pb) by (nonlinear_arith)
                requires
                    pb > 0,
            ;
        } else {
            let pa = pow2((ea - 1) as nat);
            lemma_pow2_pos((ea - 1) as nat);
            lemma_pow2_unfold(ea);
            assert(pow2(ea) == 2 * pa);
            if ea < eb - 1 {
                lemma_pow2_strictly_increases(ea, (eb - 1) as nat);
            }
            assert(pow2(ea) <= pb);
            assert((0x80_0000 + fa) * pa < 0x80_0000 * pb) by (nonlinear_arith)
                requires
                    fa < 0x80_0000,
                    pa > 0,
                    2 * pa <= pb,
            ;
        }
    }
}

/// The limits denote 90 and 180.
pub proof fn lemma_limits()
    ensures
        scaled(LAT_LIMIT as nat) == whole(90),
        scaled(LONG_LIMIT as nat) == whole(180),
{
    lemma2_to64();
    lemma_pow2_adds(17, 132);
    lemma_pow2_unfold(133);
    let p = pow2(132);
    assert(scaled(LAT_LIMIT as nat) == 0xb4_0000 * p);
    assert(scaled(LONG_LIMIT as nat) == 0xb4_0000 * pow2(133));
    assert(pow2(149) == 0x2_0000 * p);
    assert(0xb4_0000 * p == 90 * (0x2_0000 * p)) by (nonlinear_arith);
    assert(0xb4_0000 * (2 * p) == 180 * (0x2_0000 * p)) by (nonlinear_arith);
}

/// A magnitude is within a limit exactly when its number is.
pub proof fn lemma_within(m: nat, limit: nat)
    ensures
        m <= limit <==> scaled(m) <= scaled(limit),
        m == limit <==> scaled(m) == scaled(limit),
{
    if m < limit {
        lemma_scaled_increases(m, limit);
    }
    if limit < m {
        lemma_scaled_increases(limit, m);
    }
}

/// Clears the sign bit.
fn magnitude_of(bits: u32) -> (m: u32)
    ensures
        m == magnitude(bits),
{
    let m = bits & 0x7fff_ffff;
    assert(bits & 0x7fff_ffff == bits % 0x8000_0000) by (bit_vector);
    m
}

/// Validates a radius filter: latitude in [-90, 90], longitude in
/// (-180, 180], radius finite. Reports the first rule broken.
pub fn check_circle(c: &Circle) -> (r: Result<(), Failure>)
    ensures
        r == circle_verdict(*c),
{
    proof {
        lemma_limits();
        lemma_within(magnitude(c.lat), LAT_LIMIT as nat);
        lemma_within(magnitude(c.long), LONG_LIMIT as nat);
    }
    let lat = magnitude_of(c.lat);
    if lat > LAT_LIMIT {
        return Err(Failure::LatitudeOutOfRange);
    }
    let long = magnitude_of(c.long);
    if long > LONG_LIMIT || (long == LONG_LIMIT && c.long >= 0x8000_0000) {
        return Err(Failure::LongitudeOutOfRange);
    }
    let radius = magnitude_of(c.radius);
    if radius >= INFINITY {
        return Err(Failure::RadiusNotFinite);
    }
    Ok(())
}

/// Validates the optional radius filter of a query. No filter means no
/// restriction by distance, and is always valid.
pub fn check_filter(filter: &Option<Circle>) -> (r: Result<(), Failure>)
    ensures
        r == filter_verdict(*filter),
{
    match filter {
        Some(c) => check_circle(c),
        None => Ok(()),
    }
}

/// What validation answers for an optional filter.
pub open spec fn filter_verdict(filter: Option<Circle>) -> Result<(), Failure> {
    match filter {
        Some(c) => circle_verdict(c),
        None => Ok(()),
    }
}

} // verus!
