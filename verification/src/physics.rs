//! The impact formulas, over milli-scaled integers.

use vstd::prelude::*;
use vstd::arithmetic::div_mod::lemma_div_is_ordered;

verus! {

/// The circle constant scaled by 10^9.
pub const PI_NANOS: u64 = 3_141_592_653;

/// Divisor that turns `PI_NANOS * d^3` (d in milli-meters) into a volume in
/// milli-cubic-meters: the sphere volume is `pi * d^3 / 6`, and the scale
/// factors — 10^9 from `PI_NANOS`, 10^9 from the cubed milli-meters net of
/// the milli result — join the 6 into one constant.
pub const VOLUME_DIVISOR: u64 = 6_000_000_000_000_000;

/// Sphere volume in milli-cubic-meters for a diameter `d` in milli-meters,
/// rounded toward zero.
pub open spec fn volume_milli(d: int) -> int {
    (PI_NANOS * d * d * d) / (VOLUME_DIVISOR as int)
}

/// Executable sphere volume: `r` is the volume in milli-cubic-meters of a
/// meteor `d` milli-meters across.
pub fn volume_milli_of(d: u64) -> (r: u64)
    requires
        1_000 <= d <= 1_000_000,
    ensures
        r == volume_milli(d as int),
        r <= 524_000_000_000,
{
    let wide: u128 = d as u128;
    proof {
        assert(d * d <= 1_000_000_000_000) by (nonlinear_arith)
            requires
                d <= 1_000_000,
        ;
        assert(d * d * d <= 1_000_000_000_000_000_000) by (nonlinear_arith)
            requires
                d <= 1_000_000,
                d * d <= 1_000_000_000_000,
        ;
        assert(PI_NANOS * d * d * d == PI_NANOS * (d * d * d)) by (nonlinear_arith);
        assert(PI_NANOS * (d * d * d) <= 3_141_592_653_000_000_000_000_000_000)
            by (nonlinear_arith)
            requires
                0 <= d * d * d <= 1_000_000_000_000_000_000,
                PI_NANOS == 3_141_592_653,
        ;
        lemma_div_is_ordered(
            PI_NANOS * (d * d * d),
            3_141_592_653_000_000_000_000_000_000,
            VOLUME_DIVISOR as int,
        );
        assert(3_141_592_653_000_000_000_000_000_000int / (VOLUME_DIVISOR as int)
            <= 524_000_000_000);
    }
    let cubed: u128 = wide * wide * wide;
    let scaled: u128 = (PI_NANOS as u128) * cubed;
    let q: u128 = scaled / (VOLUME_DIVISOR as u128);
    q as u64
}

/// Divisor that turns a volume in milli-cubic-meters times a density in
/// milli-kilograms-per-cubic-meter into a mass in milli-tons: the mass in
/// tons is `volume * density / 1000`, and the two milli scales of the inputs
/// against the one of the result leave 10^3 more.
pub const MASS_DIVISOR: u64 = 1_000_000;

/// Meteor mass in milli-tons for a diameter `d` in milli-meters and a bulk
/// density `rho` in milli-kilograms-per-cubic-meter, rounded toward zero.
pub open spec fn mass_milli(d: int, rho: int) -> int {
    (volume_milli(d) * rho) / (MASS_DIVISOR as int)
}

/// The mass before any rounding, scaled by a fixed positive constant: the
/// real mass is proportional to `d^3 * rho`, so this product orders exactly
/// as the real mass does.
pub open spec fn mass_numerator(d: int, rho: int) -> int {
    PI_NANOS * d * d * d * rho
}

/// Executable meteor mass in milli-tons.
pub fn mass_milli_of(d: u64, rho: u64) -> (r: u64)
    requires
        1_000 <= d <= 1_000_000,
        1 <= rho <= 100_000_000,
    ensures
        r == mass_milli(d as int, rho as int),
        r <= 52_400_000_000_000,
{
    let volume: u64 = volume_milli_of(d);
    proof {
        assert(volume * rho <= 524_000_000_000 * 100_000_000) by (nonlinear_arith)
            requires
                0 <= volume <= 524_000_000_000,
                0 <= rho <= 100_000_000,
        ;
        lemma_div_is_ordered(
            volume * rho,
            52_400_000_000_000_000_000_000int,
            MASS_DIVISOR as int,
        );
    }
    let scaled: u128 = (volume as u128) * (rho as u128);
    let q: u128 = scaled / (MASS_DIVISOR as u128);
    q as u64
}

/// Divisor that turns a mass in milli-tons times the square of a velocity in
/// milli-kilometers-per-second into an energy in milli-kilotons of TNT: the
/// kinetic energy in joules is `0.5 * mass * 1000 * velocity^2 * 10^6`, one
/// kiloton is 4.184 * 10^12 joules, and the milli scales cancel down to this
/// one constant.
pub const ENERGY_DIVISOR: u64 = 8_368_000_000;

/// Impact energy in milli-kilotons of TNT for a diameter `d` in milli-meters,
/// a density `rho` in milli-kilograms-per-cubic-meter and a velocity `v` in
/// milli-kilometers-per-second, rounded toward zero.
pub open spec fn energy_milli(d: int, rho: int, v: int) -> int {
    (mass_milli(d, rho) * v * v) / (ENERGY_DIVISOR as int)
}

/// The energy before any rounding, scaled by a fixed positive constant: the
/// real energy is proportional to `mass * v^2`.
pub open spec fn energy_numerator(d: int, rho: int, v: int) -> int {
    mass_numerator(d, rho) * v * v
}

/// Executable impact energy in milli-kilotons of TNT.
pub fn energy_milli_of(d: u64, rho: u64, v: u64) -> (r: u64)
    requires
        1_000 <= d <= 1_000_000,
        1 <= rho <= 100_000_000,
        11_000 <= v <= 72_000,
    ensures
        r == energy_milli(d as int, rho as int, v as int),
        r <= 33_000_000_000_000,
{
    let mass: u64 = mass_milli_of(d, rho);
    proof {
        assert(mass * v <= 52_400_000_000_000 * 72_000) by (nonlinear_arith)
            requires
                0 <= mass <= 52_400_000_000_000,
                0 <= v <= 72_000,
        ;
        assert(mass * v * v <= 52_400_000_000_000 * 72_000 * 72_000)
            by (nonlinear_arith)
            requires
                0 <= mass * v <= 52_400_000_000_000 * 72_000,
                0 <= v <= 72_000,
        ;
        lemma_div_is_ordered(
            mass * v * v,
            52_400_000_000_000int * 72_000 * 72_000,
            ENERGY_DIVISOR as int,
        );
        assert(52_400_000_000_000int * 72_000 * 72_000 / (ENERGY_DIVISOR as int)
            <= 33_000_000_000_000);
    }
    let scaled: u128 = (mass as u128) * (v as u128) * (v as u128);
    let q: u128 = scaled / (ENERGY_DIVISOR as u128);
    q as u64
}

/// The mass never shrinks when the diameter or the density grows: for
/// diameters and densities in their slider ranges, a wider or denser meteor
/// weighs at least as much.
pub proof fn lemma_mass_monotonic(d1: int, rho1: int, d2: int, rho2: int)
    requires
        1_000 <= d1 <= d2 <= 1_000_000,
        1 <= rho1 <= rho2 <= 100_000_000,
    ensures
        mass_milli(d1, rho1) <= mass_milli(d2, rho2),
{
    assert(0 <= PI_NANOS * d1 * d1 * d1 <= PI_NANOS * d2 * d2 * d2) by (nonlinear_arith)
        requires
            0 <= d1 <= d2,
            0 <= PI_NANOS,
    ;
    lemma_div_is_ordered(
        PI_NANOS * d1 * d1 * d1,
        PI_NANOS * d2 * d2 * d2,
        VOLUME_DIVISOR as int,
    );
    vstd::arithmetic::div_mod::lemma_div_pos_is_pos(PI_NANOS * d1 * d1 * d1, VOLUME_DIVISOR as int);
    assert(0 <= volume_milli(d1) * rho1 <= volume_milli(d2) * rho2) by (nonlinear_arith)
        requires
            0 <= volume_milli(d1) <= volume_milli(d2),
            0 < rho1 <= rho2,
    ;
    lemma_div_is_ordered(
        volume_milli(d1) * rho1,
        volume_milli(d2) * rho2,
        MASS_DIVISOR as int,
    );
}

/// The mass, the volume it comes from, and the energy are never negative.
pub proof fn lemma_quantities_nonnegative(d: int, rho: int, v: int)
    requires
        1_000 <= d <= 1_000_000,
        1 <= rho <= 100_000_000,
        11_000 <= v <= 72_000,
    ensures
        0 <= volume_milli(d),
        0 <= mass_milli(d, rho),
        0 <= energy_milli(d, rho, v),
{
    assert(0 <= PI_NANOS * d * d * d) by (nonlinear_arith)
        requires
            0 <= d,
            0 <= PI_NANOS,
    ;
    vstd::arithmetic::div_mod::lemma_div_pos_is_pos(PI_NANOS * d * d * d, VOLUME_DIVISOR as int);
    assert(0 <= volume_milli(d) * rho) by (nonlinear_arith)
        requires
            0 <= volume_milli(d),
            0 < rho,
    ;
    vstd::arithmetic::div_mod::lemma_div_pos_is_pos(volume_milli(d) * rho, MASS_DIVISOR as int);
    assert(0 <= mass_milli(d, rho) * v * v) by (nonlinear_arith)
        requires
            0 <= mass_milli(d, rho),
            0 < v,
    ;
    vstd::arithmetic::div_mod::lemma_div_pos_is_pos(
        mass_milli(d, rho) * v * v,
        ENERGY_DIVISOR as int,
    );
}

/// Before rounding, the mass grows strictly: making the meteor strictly wider
/// (or strictly denser) strictly increases the exact mass, of which
/// `mass_numerator` is a fixed positive rescaling.
pub proof fn lemma_mass_strictly_monotonic(d1: int, rho1: int, d2: int, rho2: int)
    requires
        1_000 <= d1 <= d2 <= 1_000_000,
        1 <= rho1 <= rho2 <= 100_000_000,
        d1 < d2 || rho1 < rho2,
    ensures
        mass_numerator(d1, rho1) < mass_numerator(d2, rho2),
{
    assert(PI_NANOS * d1 * d1 * d1 * rho1 < PI_NANOS * d2 * d2 * d2 * rho2)
        by (nonlinear_arith)
        requires
            1_000 <= d1 <= d2,
            1 <= rho1 <= rho2,
            d1 < d2 || rho1 < rho2,
            PI_NANOS == 3_141_592_653,
    ;
}

/// The energy never shrinks when the diameter, the density or the velocity
/// grows (monotonic in the mass, and therefore in the diameter).
pub proof fn lemma_energy_monotonic(
    d1: int,
    rho1: int,
    v1: int,
    d2: int,
    rho2: int,
    v2: int,
)
    requires
        1_000 <= d1 <= d2 <= 1_000_000,
        1 <= rho1 <= rho2 <= 100_000_000,
        11_000 <= v1 <= v2 <= 72_000,
    ensures
        energy_milli(d1, rho1, v1) <= energy_milli(d2, rho2, v2),
{
    lemma_mass_monotonic(d1, rho1, d2, rho2);
    lemma_quantities_nonnegative(d1, rho1, v1);
    assert(mass_milli(d1, rho1) * v1 * v1 <= mass_milli(d2, rho2) * v2 * v2)
        by (nonlinear_arith)
        requires
            0 <= mass_milli(d1, rho1) <= mass_milli(d2, rho2),
            0 <= v1 <= v2,
    ;
    lemma_div_is_ordered(
        mass_milli(d1, rho1) * v1 * v1,
        mass_milli(d2, rho2) * v2 * v2,
        ENERGY_DIVISOR as int,
    );
}

/// Before rounding, the energy grows strictly with the velocity and with the
/// exact mass: `energy_numerator` is a fixed positive rescaling of the exact
/// kinetic energy.
pub proof fn lemma_energy_strictly_monotonic(
    d1: int,
    rho1: int,
    v1: int,
    d2: int,
    rho2: int,
    v2: int,
)
    requires
        1_000 <= d1 <= d2 <= 1_000_000,
        1 <= rho1 <= rho2 <= 100_000_000,
        11_000 <= v1 <= v2 <= 72_000,
        d1 < d2 || rho1 < rho2 || v1 < v2,
    ensures
        energy_numerator(d1, rho1, v1) < energy_numerator(d2, rho2, v2),
{
    if d1 < d2 || rho1 < rho2 {
        lemma_mass_strictly_monotonic(d1, rho1, d2, rho2);
    }
    assert(mass_numerator(d1, rho1) * v1 * v1 < mass_numerator(d2, rho2) * v2 * v2)
        by (nonlinear_arith)
        requires
            1_000 <= d1 <= d2,
            1 <= rho1 <= rho2,
            11_000 <= v1 <= v2,
            PI_NANOS == 3_141_592_653,
            mass_numerator(d1, rho1) == PI_NANOS * d1 * d1 * d1 * rho1,
            mass_numerator(d2, rho2) == PI_NANOS * d2 * d2 * d2 * rho2,
            mass_numerator(d1, rho1) <= mass_numerator(d2, rho2),
            d1 < d2 || rho1 < rho2 ==> mass_numerator(d1, rho1) < mass_numerator(d2, rho2),
            v1 < v2 || mass_numerator(d1, rho1) < mass_numerator(d2, rho2),
    ;
}

/// Numerator of the rational sine approximation (Bhaskara's), scaled so that
/// the quotient with `sine_denominator` is in milli-units: for an angle `a`
/// in milli-degrees between 0 and 180 degrees,
/// `sin(a) ~= 4a(180 - a) / (40500 - a(180 - a))` with `a` read in degrees.
/// The approximation is exact at 0, 30, 90, 150 and 180 degrees.
pub open spec fn sine_numerator(a: int) -> int {
    4_000 * a * (180_000 - a)
}

/// Denominator of the rational sine approximation.
pub open spec fn sine_denominator(a: int) -> int {
    40_500_000_000 - a * (180_000 - a)
}

/// Entry-angle attenuation in milli-units (1000 means no attenuation): the
/// sine of the entry angle `a`, given in milli-degrees, rounded toward zero.
pub open spec fn angle_factor_milli(a: int) -> int {
    sine_numerator(a) / sine_denominator(a)
}

/// Burst-altitude attenuation in milli-units (1000 means no attenuation):
/// `1 / (1 + altitude / 5)` for an altitude in milli-kilometers, written as
/// one exact fraction and rounded toward zero.
pub open spec fn altitude_factor_milli(alt: int) -> int {
    5_000_000int / (5_000 + alt)
}

/// The entry angle only ever attenuates: over the whole angle slider range
/// the factor lies in (0, 1], and it is 1 exactly at a vertical entry of
/// 90 degrees.
pub proof fn lemma_angle_factor_range(a: int)
    requires
        5_000 <= a <= 90_000,
    ensures
        1 <= angle_factor_milli(a) <= 1_000,
        angle_factor_milli(a) == 1_000 <==> a == 90_000,
{
    assert(875_000_000 <= a * (180_000 - a) <= 8_100_000_000) by (nonlinear_arith)
        requires
            5_000 <= a <= 90_000,
    ;
    let prod: int = a * (180_000 - a);
    let num: int = sine_numerator(a);
    let den: int = sine_denominator(a);
    assert(num == 4_000 * prod) by (nonlinear_arith)
        requires
            num == 4_000 * a * (180_000 - a),
            prod == a * (180_000 - a),
    ;
    vstd::arithmetic::div_mod::lemma_div_non_zero(num, den);
    vstd::arithmetic::div_mod::lemma_div_multiples_vanish(1_000, den);
    lemma_div_is_ordered(num, den * 1_000, den);
    if a < 90_000 {
        assert(prod <= 8_099_999_999) by (nonlinear_arith)
            requires
                5_000 <= a <= 89_999,
                prod == a * (180_000 - a),
        ;
        vstd::arithmetic::div_mod::lemma_div_multiples_vanish_fancy(999, den - 1, den);
        lemma_div_is_ordered(num, den * 999 + (den - 1), den);
    } else {
        assert(num == den * 1_000);
    }
}

/// At ground level the burst altitude does not attenuate at all, above it
/// it always does: the factor is 1 exactly at altitude 0 and lies in (0, 1)
/// for every positive altitude on the slider.
pub proof fn lemma_altitude_factor_range(alt: int)
    requires
        0 <= alt <= 100_000,
    ensures
        1 <= altitude_factor_milli(alt) <= 1_000,
        altitude_factor_milli(0) == 1_000,
        alt > 0 ==> altitude_factor_milli(alt) < 1_000,
{
    let den: int = 5_000 + alt;
    vstd::arithmetic::div_mod::lemma_div_non_zero(5_000_000, den);
    vstd::arithmetic::div_mod::lemma_div_multiples_vanish(1_000, den);
    lemma_div_is_ordered(5_000_000, den * 1_000, den);
    if alt > 0 {
        vstd::arithmetic::div_mod::lemma_div_multiples_vanish_fancy(999, den - 1, den);
        lemma_div_is_ordered(5_000_000, den * 999 + (den - 1), den);
    }
}

/// Climbing the burst altitude never strengthens the impact: the altitude
/// factor is antitone in the altitude.  (The exact fraction `5 / (5 + alt)`
/// falls strictly; after rounding to milli-units, neighbouring altitudes may
/// share a value.)
pub proof fn lemma_altitude_factor_antitone(alt1: int, alt2: int)
    requires
        0 <= alt1 <= alt2 <= 100_000,
    ensures
        altitude_factor_milli(alt2) <= altitude_factor_milli(alt1),
{
    vstd::arithmetic::div_mod::lemma_div_is_ordered_by_denominator(
        5_000_000,
        5_000 + alt1,
        5_000 + alt2,
    );
}

/// Executable entry-angle attenuation in milli-units.
pub fn angle_factor_milli_of(a: u64) -> (r: u64)
    requires
        5_000 <= a <= 90_000,
    ensures
        r == angle_factor_milli(a as int),
        1 <= r <= 1_000,
{
    proof {
        lemma_angle_factor_range(a as int);
        assert(875_000_000 <= a * (180_000 - a) <= 8_100_000_000) by (nonlinear_arith)
            requires
                5_000 <= a <= 90_000,
        ;
    }
    let prod: u64 = a * (180_000 - a);
    let num: u64 = 4_000 * prod;
    let den: u64 = 40_500_000_000 - prod;
    proof {
        assert(num == sine_numerator(a as int)) by (nonlinear_arith)
            requires
                num == 4_000 * prod,
                prod == a * (180_000 - a),
        ;
    }
    num / den
}

/// Executable burst-altitude attenuation in milli-units.
pub fn altitude_factor_milli_of(alt: u64) -> (r: u64)
    requires
        alt <= 100_000,
    ensures
        r == altitude_factor_milli(alt as int),
        1 <= r <= 1_000,
{
    proof {
        lemma_altitude_factor_range(alt as int);
    }
    5_000_000u64 / (5_000 + alt)
}

/// Effective energy in milli-kilotons: the raw energy `e` (milli-kilotons)
/// attenuated by the entry angle `a` (milli-degrees) and the burst altitude
/// `alt` (milli-kilometers).  Both attenuations are applied as exact
/// fractions and the result is rounded toward zero once.
pub open spec fn effective_energy_milli(e: int, a: int, alt: int) -> int {
    (e * sine_numerator(a) * 5_000) / (1_000 * sine_denominator(a) * (5_000 + alt))
}

/// Executable effective energy; never exceeds the raw energy, since both
/// attenuation factors are at most one.
pub fn effective_energy_milli_of(e: u64, a: u64, alt: u64) -> (r: u64)
    requires
        e <= 33_000_000_000_000,
        5_000 <= a <= 90_000,
        alt <= 100_000,
    ensures
        r == effective_energy_milli(e as int, a as int, alt as int),
        r <= e,
{
    proof {
        assert(875_000_000 <= a * (180_000 - a) <= 8_100_000_000) by (nonlinear_arith)
            requires
                5_000 <= a <= 90_000,
        ;
    }
    let prod: u64 = a * (180_000 - a);
    let num: u64 = 4_000 * prod;
    let den: u64 = 40_500_000_000 - prod;
    proof {
        assert(num == sine_numerator(a as int) && den == sine_denominator(a as int))
            by (nonlinear_arith)
            requires
                num == 4_000 * prod,
                den == 40_500_000_000 - prod,
                prod == a * (180_000 - a),
        ;
        assert(e * num <= 33_000_000_000_000 * 32_400_000_000_000int) by (nonlinear_arith)
            requires
                0 <= e <= 33_000_000_000_000,
                0 <= num <= 32_400_000_000_000,
        ;
        assert(0 <= e * num * 5_000 <= 33_000_000_000_000 * 32_400_000_000_000int * 5_000)
            by (nonlinear_arith)
            requires
                0 <= e * num <= 33_000_000_000_000 * 32_400_000_000_000int,
        ;
        assert(0 < 1_000 * den * (5_000 + alt) <= 1_000 * 40_500_000_000int * 105_000)
            by (nonlinear_arith)
            requires
                0 < den <= 40_500_000_000,
                0 < 5_000 + alt <= 105_000,
        ;
    }
    let scaled_num: u128 = (e as u128) * (num as u128) * 5_000;
    let scaled_den: u128 = 1_000 * (den as u128) * ((5_000 + alt) as u128);
    proof {
        assert(scaled_num == e * sine_numerator(a as int) * 5_000);
        assert(scaled_den == 1_000 * sine_denominator(a as int) * (5_000 + alt));
        assert(e * num * 5_000 <= (1_000 * den * (5_000 + alt)) * e) by (nonlinear_arith)
            requires
                0 <= e,
                0 <= num <= 1_000 * den,
                5_000 <= 5_000 + alt,
                0 <= den,
        ;
        lemma_div_is_ordered(
            e * num * 5_000,
            (1_000 * den * (5_000 + alt)) * e,
            scaled_den as int,
        );
        vstd::arithmetic::div_mod::lemma_div_multiples_vanish(e as int, scaled_den as int);
    }
    let q: u128 = scaled_num / scaled_den;
    q as u64
}

/// The integer cube root: the largest `r` with `r^3 <= n`.  The crater and
/// damage scaling laws grow with the cube root of the effective energy.
pub open spec fn cbrt_floor(n: nat) -> nat
    decreases n,
{
    if n == 0 {
        0
    } else {
        let r = cbrt_floor((n - 1) as nat);
        if (r + 1) * (r + 1) * (r + 1) <= n {
            r + 1
        } else {
            r
        }
    }
}

/// `cbrt_floor(n)` really is the rounded-down cube root of `n`.
pub proof fn lemma_cbrt_floor_bounds(n: nat)
    ensures
        cbrt_floor(n) * cbrt_floor(n) * cbrt_floor(n) <= n,
        n < (cbrt_floor(n) + 1) * (cbrt_floor(n) + 1) * (cbrt_floor(n) + 1),
    decreases n,
{
    if n == 0 {
        assert(cbrt_floor(0) == 0);
        assert(n < (cbrt_floor(n) + 1) * (cbrt_floor(n) + 1) * (cbrt_floor(n) + 1))
            by (nonlinear_arith)
            requires
                n == 0,
                cbrt_floor(n) == 0,
        ;
    } else {
        lemma_cbrt_floor_bounds((n - 1) as nat);
        let r: nat = cbrt_floor((n - 1) as nat);
        if (r + 1) * (r + 1) * (r + 1) <= n {
            assert(cbrt_floor(n) == r + 1);
            assert((r + 1) * (r + 1) * (r + 1) < (r + 2) * (r + 2) * (r + 2))
                by (nonlinear_arith)
                requires
                    0 <= r,
            ;
        } else {
            assert(cbrt_floor(n) == r);
        }
    }
}

/// No two naturals can both play the part of the rounded-down cube root.
pub proof fn lemma_cbrt_floor_unique(n: nat, r: nat)
    requires
        r * r * r <= n,
        n < (r + 1) * (r + 1) * (r + 1),
    ensures
        r == cbrt_floor(n),
{
    lemma_cbrt_floor_bounds(n);
    let c = cbrt_floor(n);
    if r < c {
        assert((r + 1) * (r + 1) * (r + 1) <= c * c * c) by (nonlinear_arith)
            requires
                0 <= r,
                r + 1 <= c,
        ;
    }
    if c < r {
        assert((c + 1) * (c + 1) * (c + 1) <= r * r * r) by (nonlinear_arith)
            requires
                0 <= c,
                c + 1 <= r,
        ;
    }
}

/// Executable integer cube root, by bisection.
pub fn cbrt_floor_of(n: u64) -> (r: u64)
    ensures
        r == cbrt_floor(n as nat),
        r <= 2_642_245,
{
    let mut lo: u64 = 0;
    let mut hi: u64 = 2_642_246;
    proof {
        assert(n < 2_642_246 * 2_642_246 * 2_642_246) by (nonlinear_arith)
            requires
                n <= 0xffff_ffff_ffff_ffff,
        ;
    }
    while lo + 1 < hi
        invariant
            lo < hi <= 2_642_246,
            lo * lo * lo <= n,
            n < hi * hi * hi,
        decreases hi - lo,
    {
        let mid: u64 = lo + (hi - lo) / 2;
        proof {
            assert(mid * mid <= 2_642_246 * 2_642_246) by (nonlinear_arith)
                requires
                    0 <= mid <= 2_642_246,
            ;
            assert(mid * mid * mid <= 2_642_246 * 2_642_246 * 2_642_246)
                by (nonlinear_arith)
                requires
                    0 <= mid <= 2_642_246,
                    0 <= mid * mid <= 2_642_246 * 2_642_246,
            ;
        }
        let cube: u128 = (mid as u128) * (mid as u128) * (mid as u128);
        if cube <= n as u128 {
            lo = mid;
        } else {
            hi = mid;
        }
    }
    proof {
        lemma_cbrt_floor_unique(n as nat, lo as nat);
    }
    lo
}

/// Crater diameter in milli-kilometers: `0.07` times the cube root of the
/// effective energy in kilotons, and no crater at all when the burst altitude
/// exceeds 5 kilometers (an airburst).  In milli-units the two rescalings
/// collapse to seven times the cube root of the milli-kiloton value.
pub open spec fn crater_diameter_milli(eff: int, alt: int) -> int {
    if alt > 5_000 {
        0
    } else {
        7 * (cbrt_floor(eff as nat) as int)
    }
}

/// Damage radius in milli-meters: `0.5 * 1000` times the cube root of the
/// effective energy in kilotons; in milli-units, fifty thousand times the
/// cube root of the milli-kiloton value.
pub open spec fn damage_radius_milli(eff: int) -> int {
    50_000 * (cbrt_floor(eff as nat) as int)
}

/// An airburst leaves no crater: above an altitude of 5 kilometers the crater
/// diameter is exactly zero, and it is never negative anywhere else.
pub proof fn lemma_crater_airburst(eff: int, alt: int)
    requires
        0 <= eff,
        0 <= alt,
    ensures
        alt > 5_000 ==> crater_diameter_milli(eff, alt) == 0,
        0 <= crater_diameter_milli(eff, alt),
{
}

/// Executable crater diameter in milli-kilometers.
pub fn crater_diameter_milli_of(eff: u64, alt: u64) -> (r: u64)
    ensures
        r == crater_diameter_milli(eff as int, alt as int),
        r <= 18_495_715,
{
    if alt > 5_000 {
        0
    } else {
        let root: u64 = cbrt_floor_of(eff);
        7 * root
    }
}

/// Executable damage radius in milli-meters.
pub fn damage_radius_milli_of(eff: u64) -> (r: u64)
    ensures
        r == damage_radius_milli(eff as int),
        r <= 132_112_250_000,
{
    let root: u64 = cbrt_floor_of(eff);
    50_000 * root
}

} // verus!
