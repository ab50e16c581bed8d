//! Planets: generated around a host system, immutable afterwards.

use crate::color::MenuColor;
use crate::physics::calculate_habitable_zone_from_luminosity;
use crate::physics::calculate_nth_orbit;
use crate::physics::calculate_orbit_period;
use crate::physics::calculate_orbital_velocity;
use crate::physics::calculate_planet_radius_from_mass_and_density;
use crate::physics::calculate_roche_limit;
use crate::physics::calculate_system_inner_limit;
use crate::physics::hz_inner_spec;
use crate::physics::hz_outer_spec;
use crate::physics::inner_limit_spec;
use crate::physics::period_spec;
use crate::physics::planet_radius_spec;
use crate::physics::velocity_spec;
use crate::physics::ORBIT_CAP;
use crate::rng::rand_in_range;
use crate::rng::sample_normal_u64;
use crate::solar_system::CelestialBodyType;
use crate::text::property_row;
use crate::text::dec_str_spec;
use crate::solar_system::SolarSystem;
use vstd::prelude::*;

verus! {

/// Letter suffix for the `n`-th planet of a system.
pub open spec fn sequence_letter_spec(n: int) -> Seq<char> {
    if n == 0 {
        "A"@
    } else if n == 1 {
        "B"@
    } else if n == 2 {
        "C"@
    } else if n == 3 {
        "D"@
    } else if n == 4 {
        "E"@
    } else if n == 5 {
        "F"@
    } else if n == 6 {
        "G"@
    } else if n == 7 {
        "H"@
    } else if n == 8 {
        "I"@
    } else if n == 9 {
        "J"@
    } else if n == 10 {
        "K"@
    } else if n == 11 {
        "L"@
    } else if n == 12 {
        "M"@
    } else if n == 13 {
        "N"@
    } else if n == 14 {
        "O"@
    } else if n == 15 {
        "P"@
    } else if n == 16 {
        "Q"@
    } else if n == 17 {
        "R"@
    } else if n == 18 {
        "S"@
    } else if n == 19 {
        "T"@
    } else if n == 20 {
        "U"@
    } else if n == 21 {
        "V"@
    } else if n == 22 {
        "W"@
    } else if n == 23 {
        "X"@
    } else if n == 24 {
        "Y"@
    } else {
        "Z"@
    }
}

/// Computes [`sequence_letter_spec`].
pub fn sequence_letter(n: usize) -> (r: &'static str)
    requires
        n < 26,
    ensures
        r@ == sequence_letter_spec(n as int),
{
    if n == 0 {
        "A"
    } else if n == 1 {
        "B"
    } else if n == 2 {
        "C"
    } else if n == 3 {
        "D"
    } else if n == 4 {
        "E"
    } else if n == 5 {
        "F"
    } else if n == 6 {
        "G"
    } else if n == 7 {
        "H"
    } else if n == 8 {
        "I"
    } else if n == 9 {
        "J"
    } else if n == 10 {
        "K"
    } else if n == 11 {
        "L"
    } else if n == 12 {
        "M"
    } else if n == 13 {
        "N"
    } else if n == 14 {
        "O"
    } else if n == 15 {
        "P"
    } else if n == 16 {
        "Q"
    } else if n == 17 {
        "R"
    } else if n == 18 {
        "S"
    } else if n == 19 {
        "T"
    } else if n == 20 {
        "U"
    } else if n == 21 {
        "V"
    } else if n == 22 {
        "W"
    } else if n == 23 {
        "X"
    } else if n == 24 {
        "Y"
    } else {
        "Z"
    }
}

/// A planet: name, mass, radius, orbit, and the habitable zone of its
/// host star cached at generation time.
#[derive(Clone, Debug)]
pub struct Planet {
    pub name: String,
    /// Thousandths of an Earth mass.
    pub mass: u64,
    /// Kilometres.
    pub radius: u64,
    /// Millionths of an AU.
    pub orbit_radius: u64,
    /// Seconds.
    pub orbit_period: u64,
    /// Millionths of an AU.
    pub hz_inner: u64,
    /// Millionths of an AU.
    pub hz_outer: u64,
}

impl Planet {
    /// Structural invariant: mass and orbit in the generator's ranges,
    /// and an ordered habitable-zone cache.
    pub open spec fn wf(self) -> bool {
        &&& 1 <= self.mass <= 10000
        &&& 1 <= self.orbit_radius <= ORBIT_CAP
        &&& self.hz_inner <= self.hz_outer
    }

    /// Whether the orbit lies inside the cached habitable zone.
    pub open spec fn is_inside_habitable_zone_spec(self) -> bool {
        self.hz_inner <= self.orbit_radius <= self.hz_outer
    }

    /// Computes [`Planet::is_inside_habitable_zone_spec`].
    pub fn is_inside_habitable_zone(&self) -> (r: bool)
        ensures
            r == self.is_inside_habitable_zone_spec(),
    {
        self.hz_inner <= self.orbit_radius && self.orbit_radius <= self.hz_outer
    }

    /// Generates the next planet of the host system.
    ///
    /// Mass and density are drawn from clamped normal distributions and
    /// the radius derived from them.  The first planet orbits just past
    /// the system's inner limit; later planets take the spacing-law
    /// orbit.  A candidate orbit that collides with a standing planet's
    /// sphere of influence, or that fails to clear the previous orbit, is
    /// redrawn up to 100 times; if the cap is hit, the candidate is
    /// forced just past the previous orbit.  So conflict avoidance is
    /// best effort, but the orbit always clears every earlier one.
    pub fn generate(host: &SolarSystem) -> (p: Planet)
        requires
            host.wf(),
            host.planets@.len() < 26,
            host.planets@.len() > 0 ==> host.planets@.last().orbit_radius < ORBIT_CAP,
        ensures
            p.wf(),
            host.planets@.len() > 0 ==> p.orbit_radius > host.planets@.last().orbit_radius,
            host.planets@.len() == 0 ==> inner_limit_spec(host.star.mass as nat) < p.orbit_radius
                <= inner_limit_spec(host.star.mass as nat) + 4_000_000,
            exists|d: int|
                2000 <= d <= 9000 && p.radius == #[trigger] planet_radius_spec(
                    p.mass as nat,
                    d as nat,
                ),
            p.orbit_period == period_spec(
                p.orbit_radius as nat,
                velocity_spec(host.star.mass as nat, p.orbit_radius as nat),
            ),
            p.hz_inner == hz_inner_spec(host.star.luminosity as nat),
            p.hz_outer == hz_outer_spec(host.star.luminosity as nat),
            p.name@ == host.star.name@ + " "@ + sequence_letter_spec(host.planets@.len() as int),
    {
        let n = host.planets.len();
        let mass = sample_normal_u64(1500, 700, 1, 10000);
        let density = sample_normal_u64(5500, 750, 2000, 9000);
        let radius = calculate_planet_radius_from_mass_and_density(mass, density);

        // The floor every candidate orbit must clear to keep the orbits
        // strictly increasing.
        let floor: u64 = if n == 0 {
            1
        } else {
            host.planets[n - 1].orbit_radius + 1
        };
        let mut orbit_radius: u64 = if n == 0 {
            let inner_limit = calculate_system_inner_limit(host.star.mass);
            let gap = sample_normal_u64(400_000, 200_000, 1000, 4_000_000);
            inner_limit + gap
        } else {
            let first = host.planets[0].orbit_radius;
            let candidate = calculate_nth_orbit(first, host.spacing_factor, n as u32);
            if candidate >= floor {
                candidate
            } else {
                floor
            }
        };
        // Redraw range for conflicting candidates: from the Roche limit
        // (or the floor, whichever is higher) out to a thousand Roche
        // limits, capped at the largest representable orbit.
        let roche = calculate_roche_limit(host.star.radius, host.star.mass, mass);
        let lo: u64 = if roche > floor {
            roche
        } else {
            floor
        };
        let lo: u64 = if lo > ORBIT_CAP {
            ORBIT_CAP
        } else {
            lo
        };
        let span: u64 = if roche <= ORBIT_CAP / 1000 {
            roche * 1000
        } else {
            ORBIT_CAP
        };
        let hi: u64 = if span > lo {
            span
        } else {
            lo
        };
        let ghost orbit0 = orbit_radius;
        let mut tries: u32 = 0;
        while tries < 100 && host.has_orbit_conflicts(orbit_radius, mass)
            invariant
                host.wf(),
                1 <= lo <= hi <= ORBIT_CAP,
                1 <= mass <= 10000,
                1 <= orbit_radius <= ORBIT_CAP,
                // With no standing planet there is nothing to conflict
                // with, so the first planet's orbit is never redrawn.
                host.planets@.len() == 0 ==> orbit_radius == orbit0,
            decreases 100 - tries,
        {
            orbit_radius = rand_in_range(lo, hi);
            tries = tries + 1;
        }
        // Whatever the redraws did, force the orbit past every earlier
        // one and under the cap.
        if orbit_radius < floor {
            orbit_radius = floor;
        }
        if orbit_radius > ORBIT_CAP {
            orbit_radius = ORBIT_CAP;
        }
        let velocity = calculate_orbital_velocity(host.star.mass, orbit_radius);
        let orbit_period = calculate_orbit_period(orbit_radius, velocity);
        let hz = calculate_habitable_zone_from_luminosity(host.star.luminosity);

        let mut name = host.star.name.clone();
        name.append(" ");
        name.append(sequence_letter(n));

        let p = Planet {
            name,
            mass,
            radius,
            orbit_radius,
            orbit_period,
            hz_inner: hz.0,
            hz_outer: hz.1,
        };
        proof {
            // The drawn density is the witness for the radius law.
            let dd: int = density as int;
            assert(p.radius == planet_radius_spec(p.mass as nat, dd as nat));
        }
        p
    }

    /// Name of the planet.
    pub fn get_name(&self) -> (r: &String)
        ensures
            r == &self.name,
    {
        &self.name
    }

    /// Mass, in thousandths of an Earth mass.
    pub fn get_mass(&self) -> (r: u64)
        ensures
            r == self.mass,
    {
        self.mass
    }

    /// Radius, in kilometres.
    pub fn get_radius(&self) -> (r: u64)
        ensures
            r == self.radius,
    {
        self.radius
    }

    /// Orbit radius, in millionths of an AU.
    pub fn get_orbit_radius(&self) -> (r: u64)
        ensures
            r == self.orbit_radius,
    {
        self.orbit_radius
    }

    /// Orbital period, in seconds.
    pub fn get_orbit_period(&self) -> (r: u64)
        ensures
            r == self.orbit_period,
    {
        self.orbit_period
    }

    /// The kind of celestial object this is.
    pub fn get_type(&self) -> (r: CelestialBodyType)
        ensures
            r == CelestialBodyType::Planet,
    {
        CelestialBodyType::Planet
    }

    /// Property table of the planet, in the scaled units.
    pub fn get_properties(&self) -> (r: Vec<Vec<String>>)
        ensures
            r@.len() == 4,
            forall|i: int| 0 <= i < 4 ==> (#[trigger] r@[i])@.len() == 2,
            r@[0]@[0]@ == "Mass"@,
            r@[0]@[1]@ == dec_str_spec(self.mass as nat) + " milli Earth masses"@,
            r@[1]@[0]@ == "Radius"@,
            r@[1]@[1]@ == dec_str_spec(self.radius as nat) + " km"@,
            r@[2]@[0]@ == "Orbit radius"@,
            r@[2]@[1]@ == dec_str_spec(self.orbit_radius as nat) + " micro-AU"@,
            r@[3]@[0]@ == "Orbital period"@,
            r@[3]@[1]@ == dec_str_spec(self.orbit_period as nat) + " s"@,
    {
        let mut rows: Vec<Vec<String>> = Vec::new();
        rows.push(property_row("Mass", self.mass, " milli Earth masses"));
        rows.push(property_row("Radius", self.radius, " km"));
        rows.push(property_row("Orbit radius", self.orbit_radius, " micro-AU"));
        rows.push(property_row("Orbital period", self.orbit_period, " s"));
        rows
    }

    /// Display colour: green inside the habitable zone, yellow when the
    /// orbit falls short of it, red past it.
    pub fn get_menu_color(&self) -> (c: MenuColor)
        ensures
            c == if self.is_inside_habitable_zone_spec() {
                MenuColor::LightGreen
            } else if self.hz_inner > self.orbit_radius {
                MenuColor::LightYellow
            } else {
                MenuColor::LightRed
            },
    {
        if self.is_inside_habitable_zone() {
            MenuColor::LightGreen
        } else if self.hz_inner > self.orbit_radius {
            MenuColor::LightYellow
        } else {
            MenuColor::LightRed
        }
    }
}

} // verus!
