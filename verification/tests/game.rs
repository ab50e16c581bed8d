//! Whole-game behaviour: the two-speed tick and generation invariants.

use star_empire::building::BuildingType;
use star_empire::building_manager::BuildingManager;
use star_empire::colony::Colony;
use star_empire::game_state::GameState;
use star_empire::research::Research;
use star_empire::research::ResearchField;
use star_empire::research_manager::ResearchManager;
use star_empire::resource::ResourceDeposit;
use star_empire::resource::ResourceType;
use star_empire::resource_manager::ResourceManager;
use star_empire::solar_system::SolarSystem;

fn mining_colony() -> Colony {
    let mut bm = BuildingManager::new();
    bm.add_building(&BuildingType::Mine);
    bm.start_construction(BuildingType::Spaceport);
    Colony::from_parts(
        "Ceres".to_string(),
        2000,
        bm,
        ResourceManager::new(),
        ResourceDeposit::with_weights(vec![100, 0, 0, 0, 0, 0]),
    )
}

fn empty_research() -> ResearchManager {
    ResearchManager::new(Vec::<ResearchField>::new(), Vec::<Research>::new())
}

#[test]
fn resource_steps_fire_at_half_the_tick_rate() {
    // With a resource-tick ratio of two, four ticks must run exactly two
    // resource steps (20 units mined by the one mine) while construction
    // advances on all four ticks.
    let mut g = GameState::from_parts(Vec::new(), vec![mining_colony()], empty_research(), 2);
    for _ in 0..4 {
        g.tick();
    }
    let c = &g.get_colonies()[0];
    assert_eq!(
        c.resource_manager.get_quantity(ResourceType::PRLightMetals),
        20
    );
    assert_eq!(c.building_manager.construction[0].progress, 4);
    assert_eq!(g.resource_tick_counter, 0);
}

#[test]
fn odd_tick_counts_leave_the_counter_mid_cycle() {
    let mut g = GameState::from_parts(Vec::new(), vec![mining_colony()], empty_research(), 2);
    for _ in 0..3 {
        g.tick();
    }
    let c = &g.get_colonies()[0];
    assert_eq!(
        c.resource_manager.get_quantity(ResourceType::PRLightMetals),
        10
    );
    assert_eq!(c.building_manager.construction[0].progress, 3);
    assert_eq!(g.resource_tick_counter, 1);
}

#[test]
fn research_advances_on_every_tick() {
    let fields = vec![ResearchField::new("f".to_string(), "Field".to_string())];
    let researches = vec![Research::new(
        "r1".to_string(),
        "Tech".to_string(),
        4,
        "f".to_string(),
        vec![],
        vec![],
        "A tech".to_string(),
    )];
    let rm = ResearchManager::new(fields, researches);
    let mut g = GameState::from_parts(Vec::new(), Vec::new(), rm, 2);
    g.start_research(&"r1".to_string());
    for _ in 0..3 {
        g.tick();
    }
    assert_eq!(g.get_research_progress(&"r1".to_string()), 75);
}

#[test]
fn start_construction_reports_unknown_colonies() {
    let mut g = GameState::from_parts(Vec::new(), vec![mining_colony()], empty_research(), 2);
    assert!(g.start_construction(&"Ceres".to_string(), BuildingType::Mine));
    assert!(!g.start_construction(&"Pluto".to_string(), BuildingType::Mine));
    let c = g.get_colony_by_name(&"Ceres".to_string()).unwrap();
    assert_eq!(c.building_manager.construction.len(), 2);
    assert!(g.get_colony_by_name(&"Pluto".to_string()).is_none());
}

#[test]
fn new_game_starts_with_one_system_and_one_colony() {
    let names = vec!["Alpha".to_string(), "Beta".to_string()];
    let g = GameState::new(&names, Vec::new(), Vec::new());
    assert_eq!(g.get_colonies().len(), 1);
    let system = g.get_starting_system();
    assert!(system.get_n_planets() >= 1);
    // The colony sits on one of the starting system's planets.
    let colony_name = g.get_colonies()[0].get_name().clone();
    assert!(system.planets.iter().any(|p| *p.get_name() == colony_name));
}

#[test]
fn generated_orbits_strictly_increase() {
    let names = vec!["Sol".to_string()];
    for _ in 0..5 {
        let s = SolarSystem::generate(&names);
        let n = s.get_n_planets();
        assert!((1..=12).contains(&n));
        for i in 1..n {
            assert!(s.planets[i - 1].get_orbit_radius() < s.planets[i].get_orbit_radius());
        }
    }
}

#[test]
fn star_mass_never_exceeds_total_system_mass() {
    let names = vec!["Sol".to_string()];
    for _ in 0..5 {
        let s = SolarSystem::generate(&names);
        assert!(s.get_star_mass() * 333_000 <= s.get_mass());
    }
}

#[test]
fn generated_stars_stay_in_the_mass_range_with_derived_tables() {
    let names = vec!["Sirius".to_string()];
    let s = SolarSystem::generate(&names);
    let star = s.get_star();
    assert!((100..=10000).contains(&star.get_mass()));
    let props = star.get_properties();
    assert_eq!(props.len(), 6);
    assert_eq!(props[0][0], "Mass".to_string());
    assert_eq!(
        props[0][1],
        format!("{} milli solar masses", star.get_mass())
    );
    let planet_props = s.planets[0].get_properties();
    assert_eq!(planet_props.len(), 4);
    assert_eq!(
        planet_props[2][1],
        format!("{} micro-AU", s.planets[0].get_orbit_radius())
    );
}

#[test]
fn planet_names_follow_the_star_name() {
    let names = vec!["Kerberos".to_string()];
    let s = SolarSystem::generate(&names);
    assert_eq!(s.get_name(), &"Kerberos".to_string());
    assert_eq!(s.planets[0].get_name(), &"Kerberos A".to_string());
    if s.get_n_planets() > 1 {
        assert_eq!(s.planets[1].get_name(), &"Kerberos B".to_string());
    }
}
