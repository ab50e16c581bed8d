//! Stars: randomized mass, derived physical properties, spectral class.

use crate::color::MenuColor;
use crate::physics::calculate_luminosity_from_mass;
use crate::physics::calculate_star_radius_from_mass;
use crate::physics::calculate_temperature_from_luminosity_and_radius;
use crate::physics::luminosity_spec;
use crate::physics::star_radius_spec;
use crate::physics::temperature_spec;
use crate::physics::calculate_habitable_zone_from_luminosity;
use crate::physics::hz_inner_spec;
use crate::physics::hz_outer_spec;
use crate::rng::rand_in_range;
use crate::rng::sample_normal_u64;
use crate::solar_system::CelestialBodyType;
use crate::text::dec_str_spec;
use crate::text::property_row;
use vstd::prelude::*;

verus! {

/// The seven spectral classes, by surface temperature band.
#[derive(Clone, Copy, Debug, PartialEq, Eq, Structural, Hash)]
pub enum StarClass {
    O,
    B,
    A,
    F,
    G,
    K,
    M,
}

/// Spectral class from surface temperature: the fixed band lookup
/// (K: 3700..=5200, G: ..=6000, F: ..=7500, A: ..=10000, B: ..=33000,
/// O above; everything cooler is M).
pub open spec fn star_class_spec(t: u64) -> StarClass {
    if 3700 <= t <= 5200 {
        StarClass::K
    } else if 5201 <= t <= 6000 {
        StarClass::G
    } else if 6001 <= t <= 7500 {
        StarClass::F
    } else if 7501 <= t <= 10000 {
        StarClass::A
    } else if 10001 <= t <= 33000 {
        StarClass::B
    } else if t > 33000 {
        StarClass::O
    } else {
        StarClass::M
    }
}

/// Computes [`star_class_spec`].
pub fn determine_star_class(temperature: u64) -> (c: StarClass)
    ensures
        c == star_class_spec(temperature),
{
    if 3700 <= temperature && temperature <= 5200 {
        StarClass::K
    } else if 5201 <= temperature && temperature <= 6000 {
        StarClass::G
    } else if 6001 <= temperature && temperature <= 7500 {
        StarClass::F
    } else if 7501 <= temperature && temperature <= 10000 {
        StarClass::A
    } else if 10001 <= temperature && temperature <= 33000 {
        StarClass::B
    } else if temperature > 33000 {
        StarClass::O
    } else {
        StarClass::M
    }
}

impl StarClass {
    /// The classifying letter.
    pub fn letter(&self) -> (c: char)
        ensures
            c == match self {
                StarClass::O => 'O',
                StarClass::B => 'B',
                StarClass::A => 'A',
                StarClass::F => 'F',
                StarClass::G => 'G',
                StarClass::K => 'K',
                StarClass::M => 'M',
            },
    {
        match self {
            StarClass::O => 'O',
            StarClass::B => 'B',
            StarClass::A => 'A',
            StarClass::F => 'F',
            StarClass::G => 'G',
            StarClass::K => 'K',
            StarClass::M => 'M',
        }
    }

    /// Display colour of the class.
    pub fn get_menu_color(&self) -> (c: MenuColor)
        ensures
            c == match self {
                StarClass::O => MenuColor::Indexed(27),
                StarClass::B => MenuColor::Indexed(33),
                StarClass::A => MenuColor::Indexed(195),
                StarClass::F => MenuColor::Indexed(231),
                StarClass::G => MenuColor::Indexed(230),
                StarClass::K => MenuColor::Indexed(216),
                StarClass::M => MenuColor::Indexed(160),
            },
    {
        match self {
            StarClass::O => MenuColor::Indexed(27),
            StarClass::B => MenuColor::Indexed(33),
            StarClass::A => MenuColor::Indexed(195),
            StarClass::F => MenuColor::Indexed(231),
            StarClass::G => MenuColor::Indexed(230),
            StarClass::K => MenuColor::Indexed(216),
            StarClass::M => MenuColor::Indexed(160),
        }
    }
}

/// A star: immutable after generation.  Mass is drawn at random; radius,
/// luminosity, surface temperature and class are all derived from it by
/// the fixed-point power laws of [`crate::physics`].
#[derive(Clone, Debug)]
pub struct Star {
    pub name: String,
    pub class: StarClass,
    /// Thousandths of a solar mass.
    pub mass: u64,
    /// Thousandths of a solar radius.
    pub radius: u64,
    /// Thousandths of the solar luminosity.
    pub luminosity: u64,
    /// Kelvin.
    pub surface_temp: u64,
}

impl Star {
    /// Structural invariant: the mass is in the generator's range and
    /// every derived property is exactly what the power laws dictate.
    pub open spec fn wf(self) -> bool {
        &&& 100 <= self.mass <= 10000
        &&& self.luminosity == luminosity_spec(self.mass as nat)
        &&& self.luminosity <= 5_000_000
        &&& self.radius == star_radius_spec(self.mass as nat)
        &&& 1 <= self.radius <= 100_000
        &&& self.surface_temp == temperature_spec(self.luminosity as nat, self.radius as nat)
        &&& self.class == star_class_spec(self.surface_temp)
    }

    /// Generates a star: mass drawn from a normal distribution around 1.2
    /// solar masses (clamped to 0.1..=10), everything else derived, and a
    /// name drawn uniformly from the given list.
    pub fn generate(star_names: &Vec<String>) -> (s: Star)
        requires
            star_names@.len() >= 1,
        ensures
            s.wf(),
            exists|i: int| 0 <= i < star_names@.len() && s.name@ == (#[trigger] star_names@[i])@,
    {
        let mass = sample_normal_u64(1200, 200, 100, 10000);
        let luminosity = calculate_luminosity_from_mass(mass);
        let radius = calculate_star_radius_from_mass(mass);
        let surface_temp = calculate_temperature_from_luminosity_and_radius(luminosity, radius);
        let class = determine_star_class(surface_temp);
        let pick = rand_in_range(0, (star_names.len() - 1) as u64) as usize;
        let name = star_names[pick].clone();
        Star { name, class, mass, radius, luminosity, surface_temp }
    }

    /// Mass, in thousandths of a solar mass.
    pub fn get_mass(&self) -> (r: u64)
        ensures
            r == self.mass,
    {
        self.mass
    }

    /// Radius, in thousandths of a solar radius.
    pub fn get_radius(&self) -> (r: u64)
        ensures
            r == self.radius,
    {
        self.radius
    }

    /// Luminosity, in thousandths of the solar luminosity.
    pub fn get_luminosity(&self) -> (r: u64)
        ensures
            r == self.luminosity,
    {
        self.luminosity
    }

    /// Surface temperature, in kelvin.
    pub fn get_surface_temp(&self) -> (r: u64)
        ensures
            r == self.surface_temp,
    {
        self.surface_temp
    }

    /// Spectral class.
    pub fn get_class(&self) -> (r: StarClass)
        ensures
            r == self.class,
    {
        self.class
    }

    /// Name of the star.
    pub fn get_name(&self) -> (r: &String)
        ensures
            r == &self.name,
    {
        &self.name
    }

    /// The kind of celestial object this is.
    pub fn get_type(&self) -> (r: CelestialBodyType)
        ensures
            r == CelestialBodyType::Star,
    {
        CelestialBodyType::Star
    }

    /// Property table of the star, in the scaled units: mass, radius,
    /// luminosity, surface temperature, and the two habitable-zone
    /// edges derived from the luminosity.
    pub fn get_properties(&self) -> (r: Vec<Vec<String>>)
        requires
            self.wf(),
        ensures
            r@.len() == 6,
            forall|i: int| 0 <= i < 6 ==> (#[trigger] r@[i])@.len() == 2,
            r@[0]@[0]@ == "Mass"@,
            r@[0]@[1]@ == dec_str_spec(self.mass as nat) + " milli solar masses"@,
            r@[1]@[0]@ == "Radius"@,
            r@[1]@[1]@ == dec_str_spec(self.radius as nat) + " milli solar radii"@,
            r@[2]@[0]@ == "Luminosity"@,
            r@[2]@[1]@ == dec_str_spec(self.luminosity as nat) + " milli solar luminosities"@,
            r@[3]@[0]@ == "Temperature"@,
            r@[3]@[1]@ == dec_str_spec(self.surface_temp as nat) + " K"@,
            r@[4]@[0]@ == "Inner radius of habitable zone"@,
            r@[4]@[1]@ == dec_str_spec(hz_inner_spec(self.luminosity as nat)) + " micro-AU"@,
            r@[5]@[0]@ == "Outer radius of habitable zone"@,
            r@[5]@[1]@ == dec_str_spec(hz_outer_spec(self.luminosity as nat)) + " micro-AU"@,
    {
        let hz = calculate_habitable_zone_from_luminosity(self.luminosity);
        let mut rows: Vec<Vec<String>> = Vec::new();
        rows.push(property_row("Mass", self.mass, " milli solar masses"));
        rows.push(property_row("Radius", self.radius, " milli solar radii"));
        rows.push(property_row("Luminosity", self.luminosity, " milli solar luminosities"));
        rows.push(property_row("Temperature", self.surface_temp, " K"));
        rows.push(property_row("Inner radius of habitable zone", hz.0, " micro-AU"));
        rows.push(property_row("Outer radius of habitable zone", hz.1, " micro-AU"));
        rows
    }

    /// Display colour, by spectral class.
    pub fn get_menu_color(&self) -> (c: MenuColor)
        ensures
            c == match self.class {
                StarClass::O => MenuColor::Indexed(27),
                StarClass::B => MenuColor::Indexed(33),
                StarClass::A => MenuColor::Indexed(195),
                StarClass::F => MenuColor::Indexed(231),
                StarClass::G => MenuColor::Indexed(230),
                StarClass::K => MenuColor::Indexed(216),
                StarClass::M => MenuColor::Indexed(160),
            },
    {
        self.class.get_menu_color()
    }
}

} // verus!
