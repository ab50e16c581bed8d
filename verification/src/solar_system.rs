//! Solar systems: one star and its ordered planets.
//!
//! The system invariant is the heart of the generator's guarantee: the
//! planets' orbit radii are strictly increasing in generation order,
//! whatever the random draws did.

use crate::color::MenuColor;
use crate::physics::calculate_nth_orbit;
use crate::physics::calculate_soi;
use crate::physics::calculate_system_inner_limit;
use crate::physics::inner_limit_spec;
use crate::physics::nth_orbit_spec;
use crate::physics::soi_spec;
use crate::physics::ORBIT_CAP;
use crate::planet::sequence_letter_spec;
use crate::planet::Planet;
use crate::rng::sample_normal_u64;
use crate::star::Star;
use vstd::prelude::*;

verus! {

/// The kinds of celestial object the game distinguishes.
#[derive(Clone, Copy, Debug, PartialEq, Eq, Structural)]
pub enum CelestialBodyType {
    Star,
    Planet,
    Moon,
    Asteroid,
    Comet,
    GasGiant,
    Nebula,
    SolarSystem,
}

/// Sum of the planet masses, in thousandths of an Earth mass.
pub open spec fn planets_mass_sum_spec(ps: Seq<Planet>) -> int
    decreases ps.len(),
{
    if ps.len() == 0 {
        0
    } else {
        planets_mass_sum_spec(ps.drop_last()) + ps.last().mass
    }
}

/// One star with its planets, ordered outward, and the spacing factor
/// that projects orbits for planets not yet generated.
#[derive(Clone, Debug)]
pub struct SolarSystem {
    pub star: Star,
    pub planets: Vec<Planet>,
    /// Thousandths of an AU per spacing-law step.
    pub spacing_factor: u64,
}

impl SolarSystem {
    /// Structural invariant: a well-formed star, a bounded spacing
    /// factor, at most 26 well-formed planets (one per name letter), and
    /// strictly increasing orbit radii.
    pub open spec fn wf(self) -> bool {
        &&& self.star.wf()
        &&& 50 <= self.spacing_factor <= 1600
        &&& self.planets@.len() <= 26
        &&& forall|i: int| 0 <= i < self.planets@.len() ==> (#[trigger] self.planets@[i]).wf()
        &&& forall|i: int|
            0 <= i < self.planets@.len() - 1 ==> (#[trigger] self.planets@[i]).orbit_radius
                < self.planets@[i + 1].orbit_radius
    }

    /// Number of planets.
    pub fn get_n_planets(&self) -> (r: usize)
        ensures
            r == self.planets@.len(),
    {
        self.planets.len()
    }

    /// Mass of the star, in thousandths of a solar mass.
    pub fn get_star_mass(&self) -> (r: u64)
        ensures
            r == self.star.mass,
    {
        self.star.mass
    }

    /// The star.
    pub fn get_star(&self) -> (r: &Star)
        ensures
            r == &self.star,
    {
        &self.star
    }

    /// Name of the system: the name of its star.
    pub fn get_name(&self) -> (r: &String)
        ensures
            r == &self.star.name,
    {
        &self.star.name
    }

    /// The spacing factor, in thousandths of an AU.
    pub fn get_spacing_factor(&self) -> (r: u64)
        ensures
            r == self.spacing_factor,
    {
        self.spacing_factor
    }

    /// Innermost stable orbit around the star, in millionths of an AU.
    pub fn get_inner_limit(&self) -> (r: u64)
        requires
            self.wf(),
        ensures
            r == inner_limit_spec(self.star.mass as nat),
            1 <= r <= 30_000,
    {
        calculate_system_inner_limit(self.star.mass)
    }

    /// Projected orbit radius for the `n`-th planet: the spacing law from
    /// the first planet's orbit, or zero when no planet exists yet.
    pub fn get_nth_orbit_radius(&self, n: u32) -> (r: u64)
        requires
            self.wf(),
            n <= 64,
        ensures
            r == if self.planets@.len() > 0 {
                nth_orbit_spec(
                    self.planets@[0].orbit_radius as nat,
                    self.spacing_factor as nat,
                    n as nat,
                )
            } else {
                0
            },
    {
        if self.planets.len() > 0 {
            calculate_nth_orbit(self.planets[0].orbit_radius, self.spacing_factor, n)
        } else {
            0
        }
    }

    /// Whether a newcomer at the candidate orbit would sit inside some
    /// standing planet's sphere-of-influence band.
    pub open spec fn orbit_conflicts_spec(self, orbit: u64, mass: u64) -> bool {
        exists|i: int|
            0 <= i < self.planets@.len() && abs_diff_spec(
                (#[trigger] self.planets@[i]).orbit_radius as int,
                orbit as int,
            ) < soi_spec(
                self.planets@[i].orbit_radius as nat,
                mass as nat,
                self.planets@[i].mass as nat,
            )
    }

    /// Computes [`SolarSystem::orbit_conflicts_spec`].
    pub fn has_orbit_conflicts(&self, orbit: u64, mass: u64) -> (r: bool)
        requires
            self.wf(),
            1 <= mass <= 10000,
            1 <= orbit <= ORBIT_CAP,
        ensures
            r == self.orbit_conflicts_spec(orbit, mass),
    {
        let mut i: usize = 0;
        while i < self.planets.len()
            invariant
                self.wf(),
                1 <= mass <= 10000,
                1 <= orbit <= ORBIT_CAP,
                i <= self.planets@.len(),
                forall|j: int|
                    0 <= j < i ==> abs_diff_spec(
                        (#[trigger] self.planets@[j]).orbit_radius as int,
                        orbit as int,
                    ) >= soi_spec(
                        self.planets@[j].orbit_radius as nat,
                        mass as nat,
                        self.planets@[j].mass as nat,
                    ),
            decreases self.planets@.len() - i,
        {
            let p_orbit = self.planets[i].orbit_radius;
            let diff: u64 = if p_orbit >= orbit {
                p_orbit - orbit
            } else {
                orbit - p_orbit
            };
            let soi = calculate_soi(p_orbit, mass, self.planets[i].mass);
            if diff < soi {
                return true;
            }
            i = i + 1;
        }
        false
    }

    /// The first planet inside the habitable zone, in generation order,
    /// if any.
    pub fn has_planets_in_habitable_zone(&self) -> (r: Option<&Planet>)
        ensures
            match r {
                Some(p) => p.is_inside_habitable_zone_spec() && exists|i: int|
                    0 <= i < self.planets@.len() && (#[trigger] self.planets@[i]) == *p && (
                    forall|j: int|
                        0 <= j < i ==> !(
                        #[trigger] self.planets@[j]).is_inside_habitable_zone_spec()),
                None => forall|i: int|
                    0 <= i < self.planets@.len() ==> !(
                    #[trigger] self.planets@[i]).is_inside_habitable_zone_spec(),
            },
    {
        let mut i: usize = 0;
        while i < self.planets.len()
            invariant
                i <= self.planets@.len(),
                forall|j: int|
                    0 <= j < i ==> !(#[trigger] self.planets@[j]).is_inside_habitable_zone_spec(),
            decreases self.planets@.len() - i,
        {
            if self.planets[i].is_inside_habitable_zone() {
                return Some(&self.planets[i]);
            }
            i = i + 1;
        }
        None
    }

    /// Total system mass in thousandths of an Earth mass: the star
    /// (333000 Earth masses per solar mass) plus every planet.  The star
    /// never weighs more than the whole.
    pub fn get_mass(&self) -> (r: u64)
        requires
            self.wf(),
        ensures
            r == self.star.mass * 333_000 + planets_mass_sum_spec(self.planets@),
            r >= self.star.mass * 333_000,
    {
        let mut total: u64 = self.star.mass * 333_000;
        let mut i: usize = 0;
        while i < self.planets.len()
            invariant
                self.wf(),
                i <= self.planets@.len(),
                total == self.star.mass * 333_000 + planets_mass_sum_spec(
                    self.planets@.take(i as int),
                ),
                total <= self.star.mass * 333_000 + i * 10000,
            decreases self.planets@.len() - i,
        {
            proof {
                assert(self.planets@.take(i + 1).drop_last() =~= self.planets@.take(i as int));
                assert(self.planets@.take(i + 1).last() == self.planets@[i as int]);
            }
            total = total + self.planets[i].mass;
            i = i + 1;
        }
        proof {
            assert(self.planets@.take(self.planets@.len() as int) =~= self.planets@);
            lemma_planets_mass_sum_nonneg(self.planets@);
        }
        total
    }

    /// Radius of the system: the orbit of its outermost planet, in
    /// millionths of an AU.
    pub fn get_radius(&self) -> (r: u64)
        requires
            self.planets@.len() >= 1,
        ensures
            r == self.planets@.last().orbit_radius,
    {
        self.planets[self.planets.len() - 1].orbit_radius
    }

    /// The planets that orbit the star, ordered outward.
    pub fn get_satellites(&self) -> (r: &Vec<Planet>)
        ensures
            r == &self.planets,
    {
        &self.planets
    }

    /// The kind of celestial object this is.
    pub fn get_type(&self) -> (r: CelestialBodyType)
        ensures
            r == CelestialBodyType::SolarSystem,
    {
        CelestialBodyType::SolarSystem
    }

    /// Generates a whole system: a star, a spacing factor, a planet
    /// count drawn around five, and that many planets generated in
    /// sequence, each seeing all previous ones.  Generation stops early
    /// only in the degenerate case that an orbit reaches the
    /// representable cap.
    pub fn generate(star_names: &Vec<String>) -> (s: SolarSystem)
        requires
            star_names@.len() >= 1,
        ensures
            s.wf(),
            1 <= s.planets@.len() <= 12,
            exists|i: int| 0 <= i < star_names@.len() && s.star.name@ == (#[trigger] star_names@[i])@,
            forall|k: int|
                0 <= k < s.planets@.len() ==> (#[trigger] s.planets@[k]).name@ == s.star.name@
                    + " "@ + sequence_letter_spec(k),
    {
        let spacing_factor = sample_normal_u64(400, 200, 50, 1600);
        let star = Star::generate(star_names);
        let mut system = SolarSystem { star, planets: Vec::new(), spacing_factor };
        let ghost star0 = system.star;
        let n_planets = (sample_normal_u64(5000, 1000, 1000, 12000) / 1000) as usize;
        let mut k: usize = 0;
        while k < n_planets
            invariant
                system.wf(),
                system.star == star0,
                1 <= n_planets <= 12,
                k <= n_planets,
                system.planets@.len() <= k,
                k > 0 ==> system.planets@.len() >= 1,
                forall|i: int|
                    0 <= i < system.planets@.len() ==> (#[trigger] system.planets@[i]).name@
                        == star0.name@ + " "@ + sequence_letter_spec(i),
            decreases n_planets - k,
        {
            let len = system.planets.len();
            let proceed = if len == 0 {
                true
            } else {
                system.planets[len - 1].orbit_radius < ORBIT_CAP
            };
            if proceed {
                let p = Planet::generate(&system);
                let ghost ps0 = system.planets@;
                system.planets.push(p);
                proof {
                    assert(system.planets@ =~= ps0.push(p));
                    assert forall|i: int| 0 <= i < system.planets@.len() - 1 implies (
                    #[trigger] system.planets@[i]).orbit_radius
                        < system.planets@[i + 1].orbit_radius by {
                        if i < ps0.len() - 1 {
                            assert(system.planets@[i] == ps0[i]);
                            assert(system.planets@[i + 1] == ps0[i + 1]);
                        } else {
                            assert(system.planets@[i] == ps0.last());
                            assert(system.planets@[i + 1] == p);
                        }
                    }
                    assert forall|i: int| 0 <= i < system.planets@.len() implies (
                    #[trigger] system.planets@[i]).name@ == star0.name@ + " "@
                        + sequence_letter_spec(i) by {
                        if i < ps0.len() {
                            assert(system.planets@[i] == ps0[i]);
                        } else {
                            assert(system.planets@[i] == p);
                        }
                    }
                }
            }
            k = k + 1;
        }
        system
    }
}

/// Absolute difference.
pub open spec fn abs_diff_spec(a: int, b: int) -> int {
    if a >= b {
        a - b
    } else {
        b - a
    }
}

/// Planet masses are positive, so their sum never shrinks the total.
pub proof fn lemma_planets_mass_sum_nonneg(ps: Seq<Planet>)
    ensures
        planets_mass_sum_spec(ps) >= 0,
    decreases ps.len(),
{
    if ps.len() > 0 {
        lemma_planets_mass_sum_nonneg(ps.drop_last());
    }
}

/// Law: in a well-formed system the planets' orbit radii are strictly
/// increasing by generation index, not just between neighbours.
pub proof fn lemma_orbit_radii_strictly_increasing(s: SolarSystem, i: int, j: int)
    requires
        s.wf(),
        0 <= i < j < s.planets@.len(),
    ensures
        s.planets@[i].orbit_radius < s.planets@[j].orbit_radius,
    decreases j - i,
{
    if i + 1 < j {
        lemma_orbit_radii_strictly_increasing(s, i + 1, j);
    }
}

/// Law: the star's mass never exceeds the total system mass (all masses
/// in thousandths of an Earth mass).
pub proof fn lemma_star_mass_dominates(s: SolarSystem)
    requires
        s.wf(),
    ensures
        s.star.mass * 333_000 <= s.star.mass * 333_000 + planets_mass_sum_spec(s.planets@),
{
    lemma_planets_mass_sum_nonneg(s.planets@);
}

} // verus!
