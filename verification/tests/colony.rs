//! Colony economy: construction completion, queue bounds, mining and
//! production chains.

use star_empire::building::BuildingType;
use star_empire::building::FactoryType;
use star_empire::building_manager::BuildingManager;
use star_empire::colony::Colony;
use star_empire::resource::ResourceDeposit;
use star_empire::resource::ResourceTransaction;
use star_empire::resource::ResourceType;
use star_empire::resource_manager::ResourceManager;
use star_empire::color::MenuColor;

fn light_metals_deposit() -> ResourceDeposit {
    ResourceDeposit::with_weights(vec![100, 0, 0, 0, 0, 0])
}

fn bare_colony() -> Colony {
    Colony::from_parts(
        "Vesta".to_string(),
        1000,
        BuildingManager::new(),
        ResourceManager::new(),
        light_metals_deposit(),
    )
}

#[test]
fn mine_completes_after_exactly_its_construction_time() {
    let mut c = bare_colony();
    c.start_construction(BuildingType::Mine);
    for _ in 0..99 {
        c.tick();
    }
    // After 99 ticks the mine is still in the queue and not counted.
    assert_eq!(c.building_manager.buildings[BuildingType::Mine.type_index()], 0);
    assert_eq!(c.building_manager.construction.len(), 1);
    c.tick();
    // The 100th tick completes it.
    assert_eq!(c.building_manager.buildings[BuildingType::Mine.type_index()], 1);
    assert_eq!(c.building_manager.construction.len(), 0);
}

#[test]
fn construction_queue_is_capacity_limited() {
    let mut c = bare_colony();
    for _ in 0..12 {
        c.start_construction(BuildingType::Mine);
    }
    assert_eq!(c.building_manager.construction.len(), 10);
}

#[test]
fn all_queued_projects_advance_together() {
    let mut bm = BuildingManager::new();
    bm.start_construction(BuildingType::Mine);
    bm.start_construction(BuildingType::Spaceport);
    bm.update_construction();
    assert_eq!(bm.construction[0].progress, 1);
    assert_eq!(bm.construction[1].progress, 1);
}

#[test]
fn construction_percentage_is_floored() {
    let mut bm = BuildingManager::new();
    bm.start_construction(BuildingType::Spaceport);
    for _ in 0..75 {
        bm.update_construction();
    }
    let queue = bm.get_construction();
    assert_eq!(queue.len(), 1);
    assert_eq!(queue[0].1, 50);  // 75 of 150 ticks
}

#[test]
fn mine_driven_extraction_credits_only_the_deposit() {
    // A colony with no mines extracts nothing; with one mine and a
    // deposit weighted entirely toward light metals, one resource step
    // yields exactly the per-step extraction.
    let mut c = bare_colony();
    c.resource_tick();
    assert_eq!(c.resource_manager.get_quantity(ResourceType::PRLightMetals), 0);
    c.start_construction(BuildingType::Mine);
    for _ in 0..100 {
        c.tick();
    }
    c.resource_tick();
    let all = c.get_resources();
    assert_eq!(all[0].1, 10);  // light metals: 10 rounds, 1 mine
    for i in 1..17 {
        assert_eq!(all[i].1, 0);
    }
}

#[test]
fn production_chain_consumes_inputs_and_yields_output() {
    let mut bm = BuildingManager::new();
    bm.add_building(&BuildingType::Factory(FactoryType::ElectronicsFactory));
    let mut rm = ResourceManager::new();
    rm.apply(ResourceTransaction::new(ResourceType::PRPreciousMetals, 2));
    rm.apply(ResourceTransaction::new(ResourceType::PRSilicon, 6));
    bm.update_production(&mut rm);
    assert_eq!(rm.get_quantity(ResourceType::PRPreciousMetals), 1);
    assert_eq!(rm.get_quantity(ResourceType::PRSilicon), 1);
    assert_eq!(rm.get_quantity(ResourceType::SRElectronics), 3);
}

#[test]
fn production_without_inputs_changes_nothing() {
    let mut bm = BuildingManager::new();
    bm.add_building(&BuildingType::Factory(FactoryType::ElectronicsFactory));
    let mut rm = ResourceManager::new();
    rm.apply(ResourceTransaction::new(ResourceType::PRPreciousMetals, 1));
    // Silicon is missing, so the whole batch must be dropped.
    bm.update_production(&mut rm);
    assert_eq!(rm.get_quantity(ResourceType::PRPreciousMetals), 1);
    assert_eq!(rm.get_quantity(ResourceType::PRSilicon), 0);
    assert_eq!(rm.get_quantity(ResourceType::SRElectronics), 0);
}

#[test]
fn factories_run_independent_batches() {
    let mut bm = BuildingManager::new();
    bm.add_building(&BuildingType::Factory(FactoryType::ElectronicsFactory));
    bm.add_building(&BuildingType::Factory(FactoryType::KeroseneFactory));
    let mut rm = ResourceManager::new();
    // Only the kerosene factory has inputs.
    rm.apply(ResourceTransaction::new(ResourceType::PRCrudeOil, 10));
    bm.update_production(&mut rm);
    assert_eq!(rm.get_quantity(ResourceType::PRCrudeOil), 0);
    assert_eq!(rm.get_quantity(ResourceType::SRKerosene), 5);
    assert_eq!(rm.get_quantity(ResourceType::SRElectronics), 0);
}

#[test]
fn generated_deposit_deals_out_one_hundred_points() {
    let d = ResourceDeposit::generate_for_planet();
    let mut sum: u32 = 0;
    for i in 0..6 {
        let w = d.weight(i);
        assert!(w >= 1);
        sum += w;
    }
    assert_eq!(sum, 100);
}

#[test]
fn deposit_sampling_never_picks_a_zero_weight() {
    let d = light_metals_deposit();
    for _ in 0..50 {
        assert_eq!(d.sample(), ResourceType::PRLightMetals);
    }
}

#[test]
fn deposit_sampling_respects_which_weight_is_positive() {
    // All weight on the last primary resource: the sampler must find it.
    let d = ResourceDeposit::with_weights(vec![0, 0, 0, 0, 0, 100]);
    for _ in 0..50 {
        assert_eq!(d.sample(), ResourceType::PRSilicon);
    }
}

#[test]
fn construction_times_match_the_fixed_constants() {
    assert_eq!(BuildingType::Mine.get_construction_time(), 100);
    assert_eq!(BuildingType::Spaceport.get_construction_time(), 150);
    assert_eq!(BuildingType::DryDock.get_construction_time(), 130);
    assert_eq!(
        BuildingType::Factory(FactoryType::CompositesFactory).get_construction_time(),
        100
    );
    assert_eq!(FactoryType::ElectronicsFactory.get_construction_time(), 75);
    assert_eq!(FactoryType::SensorsFactory.get_construction_time(), 130);
}

#[test]
fn only_factories_produce_resources() {
    assert!(!BuildingType::Mine.is_producing_resources());
    assert!(!BuildingType::Spaceport.is_producing_resources());
    assert!(!BuildingType::DryDock.is_producing_resources());
    assert!(BuildingType::Factory(FactoryType::PlasticsFactory).is_producing_resources());
}

#[test]
fn colony_info_greys_out_empty_stocks() {
    let mut c = bare_colony();
    c.resource_manager.apply(ResourceTransaction::new(ResourceType::PRWater, 2));
    let info = c.get_info();
    assert_eq!(info.len(), 19);
    assert_eq!(info[0].0, "Name: Vesta".to_string());
    assert_eq!(info[0].1, MenuColor::Cyan);
    assert_eq!(info[1].0, "Population: 1000".to_string());
    let water = ResourceType::PRWater.type_index();
    assert_eq!(info[2 + water].0, "Water: 2".to_string());
    assert_eq!(info[2 + water].1, MenuColor::Gray);
    assert_eq!(info[2].1, MenuColor::DarkGray);  // light metals at zero
}
