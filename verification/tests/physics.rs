//! The fixed-point astrophysics formulas, pinned to exact values.

use star_empire::math::isqrt64;
use star_empire::math::nth_root;
use star_empire::physics::calculate_inner_radius_of_habitable_zone_from_luminosity;
use star_empire::physics::calculate_luminosity_from_mass;
use star_empire::physics::calculate_nth_orbit;
use star_empire::physics::calculate_orbit_period;
use star_empire::physics::calculate_orbital_velocity;
use star_empire::physics::calculate_outer_radius_of_habitable_zone_from_luminosity;
use star_empire::physics::calculate_planet_radius_from_mass_and_density;
use star_empire::physics::calculate_star_radius_from_mass;
use star_empire::physics::calculate_system_inner_limit;
use star_empire::physics::calculate_temperature_from_luminosity_and_radius;
use star_empire::star::determine_star_class;
use star_empire::star::StarClass;
use star_empire::text::u32_text;
use star_empire::utils::select_next_in_list;
use star_empire::utils::select_prev_in_list;
use star_empire::mode::Mode;
use star_empire::ship_module::ShipModuleManager;
use star_empire::ship_module::ShipModuleType;
use star_empire::tabs::Tabs;

#[test]
fn integer_roots_are_floors() {
    assert_eq!(isqrt64(0), 0);
    assert_eq!(isqrt64(15), 3);
    assert_eq!(isqrt64(16), 4);
    assert_eq!(nth_root(1_000_000_000_000_000, 5), 1000);
    assert_eq!(nth_root(999_999_999_999_999, 5), 999);
    assert_eq!(nth_root(26, 3), 2);
    assert_eq!(nth_root(27, 3), 3);
}

#[test]
fn a_solar_mass_star_reproduces_the_sun() {
    // One solar mass (1000 thousandths) gives the solar luminosity,
    // radius and surface temperature in the scaled units.
    assert_eq!(calculate_luminosity_from_mass(1000), 1000);
    assert_eq!(calculate_star_radius_from_mass(1000), 1000);
    assert_eq!(calculate_temperature_from_luminosity_and_radius(1000, 1000), 5776);
    assert_eq!(determine_star_class(5776), StarClass::G);
}

#[test]
fn luminosity_follows_the_three_branch_power_law() {
    assert_eq!(calculate_luminosity_from_mass(300), 14);  // 0.23 m^2.3 branch
    assert_eq!(calculate_luminosity_from_mass(2000), 16000);  // m^4 branch
    assert_eq!(calculate_luminosity_from_mass(3000), 65394);  // 1.4 m^3.5 branch
}

#[test]
fn star_radius_follows_the_two_branch_power_law() {
    assert_eq!(calculate_star_radius_from_mass(500), 574);  // m^0.8 branch
    assert_eq!(calculate_star_radius_from_mass(2000), 1485);  // m^0.57 branch
}

#[test]
fn star_classes_follow_the_temperature_bands() {
    assert_eq!(determine_star_class(3000), StarClass::M);
    assert_eq!(determine_star_class(3700), StarClass::K);
    assert_eq!(determine_star_class(5200), StarClass::K);
    assert_eq!(determine_star_class(5201), StarClass::G);
    assert_eq!(determine_star_class(6001), StarClass::F);
    assert_eq!(determine_star_class(7501), StarClass::A);
    assert_eq!(determine_star_class(10001), StarClass::B);
    assert_eq!(determine_star_class(33001), StarClass::O);
}

#[test]
fn habitable_zone_brackets_one_au_for_the_sun() {
    let inner = calculate_inner_radius_of_habitable_zone_from_luminosity(1000);
    let outer = calculate_outer_radius_of_habitable_zone_from_luminosity(1000);
    assert_eq!(inner, 953_462);  // sqrt(1/1.1) AU in micro-AU
    assert_eq!(outer, 1_373_605);  // sqrt(1/0.53) AU in micro-AU
    assert!(inner < 1_000_000 && 1_000_000 < outer);
}

#[test]
fn orbital_speed_and_period_reproduce_earth() {
    // One solar mass, one AU: about 29.8 km/s and about one year.
    let v = calculate_orbital_velocity(1000, 1_000_000);
    assert_eq!(v, 29_789);
    let p = calculate_orbit_period(1_000_000, v);
    assert_eq!(p, 31_553_627);  // within half a percent of a year
}

#[test]
fn planet_radius_reproduces_earth() {
    // An Earth mass at Earth-like density: about 6400 km.
    assert_eq!(calculate_planet_radius_from_mass_and_density(1000, 5500), 6376);
}

#[test]
fn spacing_law_doubles_each_step() {
    assert_eq!(calculate_nth_orbit(1_000_000, 400, 1), 1_800_000);
    assert_eq!(calculate_nth_orbit(1_000_000, 400, 2), 2_600_000);
    assert_eq!(calculate_nth_orbit(1_000_000, 400, 3), 4_200_000);
}

#[test]
fn inner_limit_sits_close_to_the_star() {
    assert_eq!(calculate_system_inner_limit(1000), 11_763);  // about 0.012 AU
}

#[test]
fn decimal_text_renders_exactly() {
    assert_eq!(u32_text(0), "0".to_string());
    assert_eq!(u32_text(7), "7".to_string());
    assert_eq!(u32_text(12345), "12345".to_string());
}

#[test]
fn list_cursor_wraps_at_both_ends() {
    assert_eq!(select_next_in_list(0, 3), 1);
    assert_eq!(select_next_in_list(2, 3), 0);
    assert_eq!(select_prev_in_list(2, 3), 1);
    assert_eq!(select_prev_in_list(0, 3), 2);
}

#[test]
fn interface_enums_render_their_titles() {
    assert_eq!(Tabs::Research.title(), "Research".to_string());
    assert_eq!(Tabs::Planets.title(), "Colonized planets".to_string());
    assert_eq!(Mode::default(), Mode::Main);
    let mgr = ShipModuleManager::new(Vec::new());
    assert_eq!(mgr.get_ship_module_types().len(), 1);
    assert_eq!(
        mgr.get_ship_module_type_by_name(&"Sublight Thruster".to_string()),
        Some(ShipModuleType::SublightThruster)
    );
    assert_eq!(mgr.get_ship_module_type_by_name(&"Warp Drive".to_string()), None);
}
