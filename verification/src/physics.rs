//! Fixed-point astrophysics.
//!
//! Every quantity is an integer in a scaled unit, chosen so the power laws
//! of stellar structure become floor roots of integer products:
//!
//! - star mass: thousandths of a solar mass (valid range 100..=10000)
//! - star radius: thousandths of a solar radius
//! - luminosity: thousandths of the solar luminosity
//! - surface temperature: kelvin
//! - planet mass: thousandths of an Earth mass (1..=10000)
//! - planet density: kg per cubic metre (2000..=9000)
//! - planet radius: kilometres
//! - orbit radius: millionths of an astronomical unit, capped at
//!   [`ORBIT_CAP`]
//! - orbital velocity: metres per second; orbital period: seconds
//!
//! Each constant below folds the physical constants (G, the solar mass,
//! radius and luminosity, the Earth mass, the metre/AU ratio) into the
//! scaled units, so a formula like `v = sqrt(G * M / r)` becomes
//! `v = sqrt(m * VELOCITY_COEFF / r)` on the scaled integers.

use crate::math::is_nth_root;
use crate::math::isqrt64;
use crate::math::lemma_nth_root_monotone;
use crate::math::lemma_mul_le;
use crate::math::lemma_nth_root_spec;
use crate::math::lemma_pow10_val;
use crate::math::lemma_pow2_val;
use crate::math::lemma_pow3_val;
use crate::math::lemma_pow4_val;
use crate::math::lemma_pow5_val;
use crate::math::lemma_pow7_val;
use crate::math::lemma_root_below;
use crate::math::nth_root;
use crate::math::nth_root_spec;
use vstd::arithmetic::power2::pow2;
use vstd::prelude::*;

verus! {

/// Largest representable orbit radius, in millionths of an AU.
pub const ORBIT_CAP: u64 = 1_000_000_000_000;

/// `G * SUN_MASS/1000 / (AU/10^6)` folded into one coefficient: orbital
/// speed in m/s is `sqrt(mass * VELOCITY_COEFF / orbit)`.
pub const VELOCITY_COEFF: u64 = 887_391_200_000;

/// `2 * pi * AU / 10^6` in metres: period in seconds is
/// `orbit * PERIOD_COEFF / velocity`.
pub const PERIOD_COEFF: u64 = 939_951;

/// `(2.455 * cbrt(SUN_MASS/1000 / 5400) * 10^6 / AU)^3`: the innermost
/// stable orbit in micro-AU is `cbrt(mass * INNER_LIMIT_COEFF)`.
pub const INNER_LIMIT_COEFF: u64 = 1_627_868_000;

/// `3/(4*pi) * EARTH_MASS/1000 / 10^9`: a planet's radius in km is
/// `cbrt(mass * PLANET_RADIUS_COEFF / density)`.
pub const PLANET_RADIUS_COEFF: u64 = 1_425_710_000_000;

/// `2 * (SUN_MASS/1000) / (EARTH_MASS/1000) * 10^6`: the Roche limit in
/// micro-AU is `radius * ROCHE_RADIUS_COEFF * cbrt(star_mass *
/// ROCHE_RATIO_COEFF / planet_mass) / 10^11`.
pub const ROCHE_RATIO_COEFF: u64 = 666_108_500_000;

/// Micro-AU per thousandth of a solar radius, scaled by 10^6.
pub const ROCHE_RADIUS_COEFF: u64 = 4_650_467;

/// Luminosity from stellar mass: the three-branch main-sequence power law
/// `0.23 m^2.3` / `m^4` / `1.4 m^3.5` (solar units), on scaled integers.
/// The fractional exponent 2.3 is taken as `2 + 3/10`, and 3.5 as
/// `3 + 1/2`.
pub open spec fn luminosity_spec(m: nat) -> nat {
    if m <= 430 {
        230 * m * m * nth_root_spec(m * m * m * 1_000_000_000_000_000_000_000, 10)
            / 1_000_000_000
    } else if m <= 2000 {
        m * m * m * m / 1_000_000_000
    } else {
        14 * m * m * m * nth_root_spec(10 * m, 2) / 1_000_000_000
    }
}

/// Computes [`luminosity_spec`].
pub fn calculate_luminosity_from_mass(m: u64) -> (l: u64)
    requires
        100 <= m <= 10000,
    ensures
        l == luminosity_spec(m as nat),
        l <= 5_000_000,
{
    if m <= 430 {
        proof {
            lemma_mul_le(m as int, 430, m as int, 430);
            lemma_mul_le((m as int) * (m as int), 430int * 430, m as int, 430);
        }
        let arg: u128 = (m as u128) * (m as u128) * (m as u128) * 1_000_000_000_000_000_000_000;
        let s = nth_root(arg, 10);
        proof {
            lemma_nth_root_spec(arg as nat, 10, s as nat);
            lemma_pow10_val(1000);
            lemma_root_below(arg as nat, 10, s as nat, 1000);
            lemma_mul_le(230int * (m as int), 230int * 430, m as int, 430);
            lemma_mul_le(230int * (m as int) * (m as int), 230int * 430 * 430, s as int, 1000);
        }
        ((230 * (m as u128) * (m as u128) * s) / 1_000_000_000) as u64
    } else if m <= 2000 {
        proof {
            lemma_mul_le(m as int, 2000, m as int, 2000);
            lemma_mul_le((m as int) * (m as int), 2000int * 2000, m as int, 2000);
            lemma_mul_le((m as int) * (m as int) * (m as int), 2000int * 2000 * 2000, m as int, 2000);
        }
        (((m as u128) * (m as u128) * (m as u128) * (m as u128)) / 1_000_000_000) as u64
    } else {
        let s = isqrt64(10 * m);
        proof {
            lemma_nth_root_spec((10 * m) as nat, 2, s as nat);
            lemma_pow2_val(320);
            lemma_root_below((10 * m) as nat, 2, s as nat, 320);
            lemma_mul_le(14int * (m as int), 14int * 10000, m as int, 10000);
            lemma_mul_le(14int * (m as int) * (m as int), 14int * 10000 * 10000, m as int, 10000);
            lemma_mul_le(
                14int * (m as int) * (m as int) * (m as int),
                14int * 10000 * 10000 * 10000,
                s as int,
                320,
            );
        }
        ((14 * (m as u128) * (m as u128) * (m as u128) * (s as u128)) / 1_000_000_000) as u64
    }
}

/// Stellar radius from mass: `m^0.8` below one solar mass, `m^0.57`
/// above (solar units).  The exponents are taken as `4/5` and `4/7`.
pub open spec fn star_radius_spec(m: nat) -> nat {
    if m <= 1000 {
        nth_root_spec(m * m * m * m * 1000, 5)
    } else {
        nth_root_spec(m * m * m * m * 1_000_000_000, 7)
    }
}

/// Computes [`star_radius_spec`].
pub fn calculate_star_radius_from_mass(m: u64) -> (r: u64)
    requires
        100 <= m <= 10000,
    ensures
        r == star_radius_spec(m as nat),
        1 <= r <= 100_000,
{
    if m <= 1000 {
        proof {
            lemma_mul_le(m as int, 1000, m as int, 1000);
            lemma_mul_le((m as int) * (m as int), 1000int * 1000, m as int, 1000);
            lemma_mul_le((m as int) * (m as int) * (m as int), 1000int * 1000 * 1000, m as int, 1000);
        }
        let arg: u128 = (m as u128) * (m as u128) * (m as u128) * (m as u128) * 1000;
        let s = nth_root(arg, 5);
        proof {
            lemma_nth_root_spec(arg as nat, 5, s as nat);
            lemma_pow5_val(100_000);
            lemma_root_below(arg as nat, 5, s as nat, 100_000);
            lemma_pow5_val(1);
            assert((m as int) * (m as int) * (m as int) * (m as int) >= 1) by (nonlinear_arith)
                requires
                    m >= 1,
            ;
        }
        s as u64
    } else {
        proof {
            lemma_mul_le(m as int, 10000, m as int, 10000);
            lemma_mul_le((m as int) * (m as int), 10000int * 10000, m as int, 10000);
            lemma_mul_le(
                (m as int) * (m as int) * (m as int),
                10000int * 10000 * 10000,
                m as int,
                10000,
            );
        }
        let arg: u128 = (m as u128) * (m as u128) * (m as u128) * (m as u128) * 1_000_000_000;
        let s = nth_root(arg, 7);
        proof {
            lemma_nth_root_spec(arg as nat, 7, s as nat);
            lemma_pow7_val(100_000);
            lemma_root_below(arg as nat, 7, s as nat, 100_000);
            lemma_pow7_val(1);
            assert((m as int) * (m as int) * (m as int) * (m as int) >= 1) by (nonlinear_arith)
                requires
                    m >= 1,
            ;
        }
        s as u64
    }
}

/// Surface temperature from luminosity and radius:
/// `(L / R^2)^(1/4) * 5776` kelvin (solar units).
pub open spec fn temperature_spec(l: nat, r: nat) -> nat {
    5776 * nth_root_spec(l * 1_000_000_000_000_000 / (r * r), 4) / 1000
}

/// Computes [`temperature_spec`].
pub fn calculate_temperature_from_luminosity_and_radius(l: u64, r: u64) -> (t: u64)
    requires
        l <= 5_000_000,
        1 <= r <= 100_000,
    ensures
        t == temperature_spec(l as nat, r as nat),
        t <= 2_000_000,
{
    proof {
        lemma_mul_le(r as int, 100_000, r as int, 100_000);
        assert(1 <= (r as int) * (r as int)) by (nonlinear_arith)
            requires
                1 <= r,
        ;
        assert((l as int) * 1_000_000_000_000_000 / ((r as int) * (r as int))
            <= 5_000_000 * 1_000_000_000_000_000) by (nonlinear_arith)
            requires
                l <= 5_000_000,
                1 <= (r as int) * (r as int),
        ;
    }
    let arg: u128 = (l as u128) * 1_000_000_000_000_000 / ((r as u128) * (r as u128));
    let s = nth_root(arg, 4);
    proof {
        lemma_nth_root_spec(arg as nat, 4, s as nat);
        lemma_pow4_val(300_000);
        assert(arg < 300_000 * 300_000 * 300_000 * 300_000) by (nonlinear_arith)
            requires
                arg <= 5_000_000 * 1_000_000_000_000_000,
        ;
        lemma_root_below(arg as nat, 4, s as nat, 300_000);
    }
    (5776 * (s as u128) / 1000) as u64
}

/// Inner edge of the habitable zone: `sqrt(L / 1.1)` AU, in micro-AU.
pub open spec fn hz_inner_spec(l: nat) -> nat {
    nth_root_spec(l * 1_000_000_000_000 / 1100, 2)
}

/// Outer edge of the habitable zone: `sqrt(L / 0.53)` AU, in micro-AU.
pub open spec fn hz_outer_spec(l: nat) -> nat {
    nth_root_spec(l * 1_000_000_000_000 / 530, 2)
}

/// Computes [`hz_inner_spec`].
pub fn calculate_inner_radius_of_habitable_zone_from_luminosity(l: u64) -> (r: u64)
    requires
        l <= 5_000_000,
    ensures
        r == hz_inner_spec(l as nat),
        is_nth_root((l * 1_000_000_000_000 / 1100) as nat, 2, r as nat),
        r <= 100_000_000,
{
    let arg: u64 = l * 1_000_000_000_000 / 1100;
    let s = isqrt64(arg);
    proof {
        lemma_nth_root_spec(arg as nat, 2, s as nat);
        lemma_pow2_val(100_000_000);
        lemma_root_below(arg as nat, 2, s as nat, 100_000_000);
    }
    s
}

/// Computes [`hz_outer_spec`].
pub fn calculate_outer_radius_of_habitable_zone_from_luminosity(l: u64) -> (r: u64)
    requires
        l <= 5_000_000,
    ensures
        r == hz_outer_spec(l as nat),
        is_nth_root((l * 1_000_000_000_000 / 530) as nat, 2, r as nat),
        r <= 100_000_000,
{
    let arg: u64 = l * 1_000_000_000_000 / 530;
    let s = isqrt64(arg);
    proof {
        lemma_nth_root_spec(arg as nat, 2, s as nat);
        lemma_pow2_val(100_000_000);
        lemma_root_below(arg as nat, 2, s as nat, 100_000_000);
    }
    s
}

/// Computes both edges of the habitable zone and shows they are ordered.
pub fn calculate_habitable_zone_from_luminosity(l: u64) -> (hz: (u64, u64))
    requires
        l <= 5_000_000,
    ensures
        hz.0 == hz_inner_spec(l as nat),
        hz.1 == hz_outer_spec(l as nat),
        hz.0 <= hz.1,
        hz.1 <= 100_000_000,
{
    let inner = calculate_inner_radius_of_habitable_zone_from_luminosity(l);
    let outer = calculate_outer_radius_of_habitable_zone_from_luminosity(l);
    proof {
        let a1 = (l * 1_000_000_000_000 / 1100) as nat;
        let a2 = (l * 1_000_000_000_000 / 530) as nat;
        vstd::arithmetic::div_mod::lemma_div_is_ordered_by_denominator(
            (l * 1_000_000_000_000) as int,
            530,
            1100,
        );
        lemma_nth_root_monotone(a1, a2, 2, inner as nat, outer as nat);
    }
    (inner, outer)
}

/// Innermost stable orbit around a star of the given mass, in micro-AU.
pub open spec fn inner_limit_spec(m: nat) -> nat {
    nth_root_spec(m * 1_627_868_000, 3)
}

/// Computes [`inner_limit_spec`].
pub fn calculate_system_inner_limit(m: u64) -> (r: u64)
    requires
        100 <= m <= 10000,
    ensures
        r == inner_limit_spec(m as nat),
        1 <= r <= 30_000,
{
    let arg: u128 = (m as u128) * 1_627_868_000;
    let s = nth_root(arg, 3);
    proof {
        lemma_nth_root_spec(arg as nat, 3, s as nat);
        lemma_pow3_val(30_000);
        assert(arg < 30_000 * 30_000 * 30_000) by (nonlinear_arith)
            requires
                arg <= 10000 * 1_627_868_000,
        ;
        lemma_root_below(arg as nat, 3, s as nat, 30_000);
        lemma_pow3_val(1);
    }
    s as u64
}

/// Radius of a planet of the given mass and mean density, in km.
pub open spec fn planet_radius_spec(m: nat, d: nat) -> nat {
    nth_root_spec(m * 1_425_710_000_000 / d, 3)
}

/// Computes [`planet_radius_spec`].
pub fn calculate_planet_radius_from_mass_and_density(m: u64, d: u64) -> (r: u64)
    requires
        1 <= m <= 10000,
        2000 <= d <= 9000,
    ensures
        r == planet_radius_spec(m as nat, d as nat),
        r <= 20_000,
{
    let arg: u128 = (m as u128) * 1_425_710_000_000 / (d as u128);
    let s = nth_root(arg, 3);
    proof {
        lemma_nth_root_spec(arg as nat, 3, s as nat);
        lemma_pow3_val(20_000);
        assert(arg < 20_000 * 20_000 * 20_000) by (nonlinear_arith)
            requires
                m <= 10000,
                d >= 2000,
                arg == (m as int) * 1_425_710_000_000 / (d as int),
        ;
        lemma_root_below(arg as nat, 3, s as nat, 20_000);
    }
    s as u64
}

/// Circular orbital speed around a star of mass `m` at orbit radius `r`,
/// in m/s.
pub open spec fn velocity_spec(m: nat, r: nat) -> nat {
    nth_root_spec(m * 887_391_200_000 / r, 2)
}

/// Computes [`velocity_spec`].
pub fn calculate_orbital_velocity(m: u64, r: u64) -> (v: u64)
    requires
        100 <= m <= 10000,
        1 <= r <= ORBIT_CAP,
    ensures
        v == velocity_spec(m as nat, r as nat),
        1 <= v <= 100_000_000,
{
    let arg: u64 = m * 887_391_200_000 / r;
    let s = isqrt64(arg);
    proof {
        lemma_nth_root_spec(arg as nat, 2, s as nat);
        lemma_pow2_val(100_000_000);
        lemma_root_below(arg as nat, 2, s as nat, 100_000_000);
        lemma_pow2_val(1);
        assert(arg >= 88) by (nonlinear_arith)
            requires
                m >= 100,
                1 <= r <= 1_000_000_000_000,
                arg == (m as int) * 887_391_200_000 / (r as int),
        ;
    }
    s
}

/// Orbital period from orbit radius and speed, in seconds.
pub open spec fn period_spec(r: nat, v: nat) -> nat {
    r * 939_951 / v
}

/// Computes [`period_spec`].
pub fn calculate_orbit_period(r: u64, v: u64) -> (p: u64)
    requires
        1 <= r <= ORBIT_CAP,
        1 <= v,
    ensures
        p == period_spec(r as nat, v as nat),
{
    ((r as u128) * 939_951 / (v as u128)) as u64
}

/// Roche limit of a planet of mass `mp` around a star of radius `rs` and
/// mass `ms`, in micro-AU.
pub open spec fn roche_spec(rs: nat, ms: nat, mp: nat) -> nat {
    rs * 4_650_467 * nth_root_spec(ms * 666_108_500_000 / mp, 3) / 100_000_000
}

/// Computes [`roche_spec`].
pub fn calculate_roche_limit(rs: u64, ms: u64, mp: u64) -> (r: u64)
    requires
        1 <= rs <= 100_000,
        100 <= ms <= 10000,
        1 <= mp <= 10000,
    ensures
        r == roche_spec(rs as nat, ms as nat, mp as nat),
        r <= 1_000_000_000,
{
    let arg: u128 = (ms as u128) * 666_108_500_000 / (mp as u128);
    let s = nth_root(arg, 3);
    proof {
        lemma_nth_root_spec(arg as nat, 3, s as nat);
        lemma_pow3_val(200_000);
        assert(arg < 200_000 * 200_000 * 200_000) by (nonlinear_arith)
            requires
                ms <= 10000,
                mp >= 1,
                arg == (ms as int) * 666_108_500_000 / (mp as int),
        ;
        lemma_root_below(arg as nat, 3, s as nat, 200_000);
        lemma_mul_le((rs as int) * 4_650_467, 100_000int * 4_650_467, s as int, 200_000);
    }
    ((rs as u128) * 4_650_467 * s / 100_000_000) as u64
}

/// Sphere of influence that a standing planet of mass `mp` on orbit `o`
/// projects against a newcomer of mass `mn`: `o * (mn/mp)^(2/5)`, in
/// micro-AU.
pub open spec fn soi_spec(o: nat, mn: nat, mp: nat) -> nat {
    o * nth_root_spec(
        (mn * 1000 / mp) * (mn * 1000 / mp) * 10_000_000_000,
        5,
    ) / 100 / 1_000_000
}

/// Computes [`soi_spec`].
pub fn calculate_soi(o: u64, mn: u64, mp: u64) -> (r: u64)
    requires
        1 <= o <= ORBIT_CAP,
        1 <= mn <= 10000,
        1 <= mp <= 10000,
    ensures
        r == soi_spec(o as nat, mn as nat, mp as nat),
{
    let ratio: u128 = (mn as u128) * 1000 / (mp as u128);
    proof {
        assert(ratio <= 10_000_000) by (nonlinear_arith)
            requires
                mn <= 10000,
                mp >= 1,
                ratio == (mn as int) * 1000 / (mp as int),
        ;
        lemma_mul_le(ratio as int, 10_000_000, ratio as int, 10_000_000);
    }
    let arg: u128 = ratio * ratio * 10_000_000_000;
    let s = nth_root(arg, 5);
    proof {
        lemma_nth_root_spec(arg as nat, 5, s as nat);
        lemma_pow5_val(100_000);
        lemma_root_below(arg as nat, 5, s as nat, 100_000);
        lemma_mul_le(o as int, 1_000_000_000_000, s as int, 100_000);
    }
    ((o as u128) * s / 100 / 1_000_000) as u64
}

/// Frost line: `4.85 * sqrt(L)` AU, in micro-AU.
pub open spec fn frost_line_spec(l: nat) -> nat {
    485 * nth_root_spec(l * 1_000_000_000, 2) / 100
}

/// Computes [`frost_line_spec`].
pub fn calculate_frost_line_from_luminosity(l: u64) -> (r: u64)
    requires
        l <= 5_000_000,
    ensures
        r == frost_line_spec(l as nat),
{
    let arg: u64 = l * 1_000_000_000;
    let s = isqrt64(arg);
    proof {
        lemma_nth_root_spec(arg as nat, 2, s as nat);
    }
    485 * s / 100
}

/// Orbit radius of the `n`-th planet out from a given first orbit:
/// `first + spacing * 2^n` where `spacing` is in milli-AU, capped at
/// [`ORBIT_CAP`].
pub open spec fn nth_orbit_spec(first: nat, spacing: nat, n: nat) -> nat {
    let raw = first + spacing * 1000 * pow2(n);
    if raw <= ORBIT_CAP { raw } else { ORBIT_CAP as nat }
}

/// Computes [`nth_orbit_spec`].
pub fn calculate_nth_orbit(first_orbit: u64, spacing: u64, n: u32) -> (r: u64)
    requires
        first_orbit <= ORBIT_CAP,
        spacing <= 1_000_000,
        n <= 64,
    ensures
        r == nth_orbit_spec(first_orbit as nat, spacing as nat, n as nat),
        first_orbit <= r <= ORBIT_CAP,
{
    let mut term: u128 = (spacing as u128) * 1000;
    let mut i: u32 = 0;
    proof {
        vstd::arithmetic::power2::lemma2_to64();
    }
    while i < n
        invariant
            i <= n <= 64,
            spacing <= 1_000_000,
            term == spacing * 1000 * pow2(i as nat),
        decreases n - i,
    {
        proof {
            vstd::arithmetic::power2::lemma_pow2_unfold((i + 1) as nat);
            vstd::arithmetic::power2::lemma2_to64();
            if (i as nat) < 64 {
                vstd::arithmetic::power2::lemma_pow2_strictly_increases(i as nat, 64);
            }
            assert(spacing * 1000 * pow2((i + 1) as nat) == (spacing * 1000 * pow2(i as nat)) * 2)
                by (nonlinear_arith)
                requires
                    pow2((i + 1) as nat) == 2 * pow2(i as nat),
            ;
            assert(term * 2 <= 1_000_000_000 * pow2(64) * 2) by (nonlinear_arith)
                requires
                    term == spacing * 1000 * pow2(i as nat),
                    spacing <= 1_000_000,
                    pow2(i as nat) <= pow2(64),
            ;
        }
        term = term * 2;
        i = i + 1;
    }
    proof {
        vstd::arithmetic::power2::lemma2_to64();
        vstd::arithmetic::power2::lemma2_to64_rest();
        assert(term <= 1_000_000_000 * pow2(64)) by (nonlinear_arith)
            requires
                term == spacing * 1000 * pow2(i as nat),
                spacing <= 1_000_000,
                pow2(i as nat) <= pow2(64),
        ;
    }
    let raw: u128 = (first_orbit as u128) + term;
    if raw <= (ORBIT_CAP as u128) {
        raw as u64
    } else {
        ORBIT_CAP
    }
}

/// Computes the first `n` projected orbit radii: the first orbit as
/// given, then the spacing law for each later slot.
pub fn calculate_n_orbits(first_orbit: u64, spacing: u64, n: usize) -> (r: Vec<u64>)
    requires
        first_orbit <= ORBIT_CAP,
        spacing <= 1_000_000,
        1 <= n <= 64,
    ensures
        r@.len() == n,
        r@[0] == first_orbit,
        forall|k: int|
            1 <= k < n ==> r@[k] == nth_orbit_spec(
                first_orbit as nat,
                spacing as nat,
                (k - 1) as nat,
            ),
{
    let mut out: Vec<u64> = Vec::new();
    out.push(first_orbit);
    let mut k: usize = 1;
    while k < n
        invariant
            first_orbit <= ORBIT_CAP,
            spacing <= 1_000_000,
            1 <= k <= n <= 64,
            out@.len() == k,
            out@[0] == first_orbit,
            forall|j: int|
                1 <= j < k ==> out@[j] == nth_orbit_spec(
                    first_orbit as nat,
                    spacing as nat,
                    (j - 1) as nat,
                ),
        decreases n - k,
    {
        out.push(calculate_nth_orbit(first_orbit, spacing, (k - 1) as u32));
        k = k + 1;
    }
    out
}

} // verus!
