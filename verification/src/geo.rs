//! Geodetic angles.
//!
//! A position on the globe's surface is a latitude/longitude pair, held
//! exactly in micro-degrees. Placing a marker converts such a pair to a
//! Cartesian point by trigonometry; that conversion is irrational and runs
//! in the unverified driver. What is verified here is the arithmetic the
//! conversion factors through: angles are periodic with a period of one
//! full circle, so every angle has a canonical representative in the
//! half-open range (-180°, 180°], and angles that differ by whole circles
//! share it. The driver feeds only canonical angles to its trigonometry.

use vstd::prelude::*;
use vstd::arithmetic::div_mod::lemma_fundamental_div_mod;
use vstd::arithmetic::div_mod::lemma_mod_add_multiples_vanish;
use vstd::arithmetic::div_mod::lemma_mod_bound;
use vstd::arithmetic::div_mod::lemma_mod_multiples_vanish;
use vstd::arithmetic::div_mod::lemma_small_mod;

verus! {

/// Micro-degrees in a full circle.
pub const FULL_CIRCLE_MICRODEG: i64 = 360_000_000;

/// Micro-degrees in a half circle.
pub const HALF_CIRCLE_MICRODEG: i64 = 180_000_000;

/// A whole multiple of the full circle large enough to lift any `i64`
/// angle into nonnegative territory before reducing it.
const ANGLE_LIFT_MICRODEG: i128 = 25_620_477_881 * 360_000_000;

/// A geodetic coordinate: latitude and longitude in micro-degrees.
/// Latitudes on the globe lie in [-90°, 90°] and longitudes in
/// [-180°, 180°], but no range is demanded: out-of-range angles simply
/// wind around the circle.
#[derive(Clone, Copy, PartialEq, Eq, Structural, Debug)]
pub struct GeodeticPoint {
    /// Latitude in micro-degrees, positive to the north.
    pub lat_microdeg: i64,
    /// Longitude in micro-degrees, positive to the east.
    pub lon_microdeg: i64,
}

/// The canonical representative of an angle modulo one full circle: the
/// unique congruent angle in (-180°, 180°], in micro-degrees.
pub open spec fn canonical_angle(x: int) -> int {
    let m = x % (FULL_CIRCLE_MICRODEG as int);
    if m > HALF_CIRCLE_MICRODEG {
        m - FULL_CIRCLE_MICRODEG
    } else {
        m
    }
}

/// Two angles that differ by a whole number of circles.
pub open spec fn congruent_angle(a: int, b: int) -> bool {
    (a - b) % (FULL_CIRCLE_MICRODEG as int) == 0
}

/// Reduces an angle in micro-degrees to its canonical representative in
/// (-180°, 180°].
pub fn normalize_angle_microdeg(x: i64) -> (r: i64)
    ensures
        r as int == canonical_angle(x as int),
{
    let full: u128 = FULL_CIRCLE_MICRODEG as u128;
    let lifted: u128 = ((x as i128) + ANGLE_LIFT_MICRODEG) as u128;
    let m: u128 = lifted % full;
    proof {
        let f = FULL_CIRCLE_MICRODEG as int;
        lemma_mod_bound(x as int + ANGLE_LIFT_MICRODEG as int, f);
        assert(ANGLE_LIFT_MICRODEG as int == f * 25_620_477_881);
        lemma_mod_multiples_vanish(25_620_477_881, x as int, f);
        lemma_mod_bound(x as int, f);
    }
    if m > HALF_CIRCLE_MICRODEG as u128 {
        (m as i64) - FULL_CIRCLE_MICRODEG
    } else {
        m as i64
    }
}

impl GeodeticPoint {
    /// Both angles reduced to their canonical representatives.
    pub fn normalized(&self) -> (p: GeodeticPoint)
        ensures
            p.lat_microdeg as int == canonical_angle(self.lat_microdeg as int),
            p.lon_microdeg as int == canonical_angle(self.lon_microdeg as int),
    {
        GeodeticPoint {
            lat_microdeg: normalize_angle_microdeg(self.lat_microdeg),
            lon_microdeg: normalize_angle_microdeg(self.lon_microdeg),
        }
    }
}

/// Law: angles congruent modulo a full circle share their canonical
/// representative. This is the periodicity of the surface position in both
/// latitude and longitude, with period 360°.
pub proof fn lemma_congruent_same_canonical(a: int, b: int)
    requires
        congruent_angle(a, b),
    ensures
        canonical_angle(a) == canonical_angle(b),
{
    let f = FULL_CIRCLE_MICRODEG as int;
    lemma_fundamental_div_mod(a - b, f);
    let q = (a - b) / f;
    assert(a == f * q + b);
    lemma_mod_multiples_vanish(q, b, f);
}

/// Law: adding one full circle to an angle leaves its canonical
/// representative unchanged.
pub proof fn lemma_canonical_angle_periodic(x: int)
    ensures
        canonical_angle(x + FULL_CIRCLE_MICRODEG) == canonical_angle(x),
{
    let f = FULL_CIRCLE_MICRODEG as int;
    lemma_mod_add_multiples_vanish(x, f);
}

/// Law: normalization is idempotent: a canonical angle is its own
/// canonical representative.
pub proof fn lemma_canonical_angle_idempotent(x: int)
    ensures
        canonical_angle(canonical_angle(x)) == canonical_angle(x),
{
    let f = FULL_CIRCLE_MICRODEG as int;
    lemma_mod_bound(x, f);
    let c = canonical_angle(x);
    if c >= 0 {
        lemma_small_mod(c as nat, FULL_CIRCLE_MICRODEG as nat);
    } else {
        lemma_mod_add_multiples_vanish(c, f);
        lemma_small_mod((c + f) as nat, FULL_CIRCLE_MICRODEG as nat);
    }
}

} // verus!
