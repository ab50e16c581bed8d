//! The resource ledger: admission, atomic batches, round trips.

use star_empire::resource::ResourceTransaction;
use star_empire::resource::ResourceType;
use star_empire::resource_manager::ResourceManager;
use star_empire::resource::ResourceGrade;

fn quantity(m: &ResourceManager, t: ResourceType) -> u32 {
    m.get_quantity(t)
}

#[test]
fn new_ledger_is_empty() {
    let m = ResourceManager::new();
    let all = m.get_resources();
    assert_eq!(all.len(), 17);
    for (_, q) in all {
        assert_eq!(q, 0);
    }
}

#[test]
fn credit_then_equal_debit_restores_balance() {
    let mut m = ResourceManager::new();
    m.apply(ResourceTransaction::new(ResourceType::PRWater, 7));
    let before = quantity(&m, ResourceType::PRWater);
    m.apply(ResourceTransaction::new(ResourceType::PRWater, 5));
    m.apply(ResourceTransaction::new(ResourceType::PRWater, -5));
    assert_eq!(quantity(&m, ResourceType::PRWater), before);
}

#[test]
fn overdrawing_debit_is_dropped() {
    let mut m = ResourceManager::new();
    m.apply(ResourceTransaction::new(ResourceType::PRSilicon, 3));
    m.apply(ResourceTransaction::new(ResourceType::PRSilicon, -4));
    assert_eq!(quantity(&m, ResourceType::PRSilicon), 3);
}

#[test]
fn is_applicable_admits_credits_and_covered_debits() {
    let mut m = ResourceManager::new();
    m.apply(ResourceTransaction::new(ResourceType::PRCrudeOil, 10));
    assert!(m.is_applicable(&ResourceTransaction::new(ResourceType::PRCrudeOil, -10)));
    assert!(!m.is_applicable(&ResourceTransaction::new(ResourceType::PRCrudeOil, -11)));
    assert!(m.is_applicable(&ResourceTransaction::new(ResourceType::PRWater, 1)));
    assert!(!m.is_applicable(&ResourceTransaction::new(ResourceType::PRWater, -1)));
}

#[test]
fn batch_with_uncovered_debit_changes_nothing() {
    let mut m = ResourceManager::new();
    // A batch crediting one resource while overdrawing another must not
    // touch the credited one.
    let batch = vec![
        ResourceTransaction::new(ResourceType::PRLightMetals, 3),
        ResourceTransaction::new(ResourceType::PRHeavyMetals, -10),
    ];
    m.apply_many(batch);
    assert_eq!(quantity(&m, ResourceType::PRLightMetals), 0);
    assert_eq!(quantity(&m, ResourceType::PRHeavyMetals), 0);
}

#[test]
fn admissible_batch_applies_every_transaction() {
    let mut m = ResourceManager::new();
    m.apply(ResourceTransaction::new(ResourceType::PRPreciousMetals, 1));
    m.apply(ResourceTransaction::new(ResourceType::PRSilicon, 5));
    let batch = vec![
        ResourceTransaction::new(ResourceType::PRPreciousMetals, -1),
        ResourceTransaction::new(ResourceType::PRSilicon, -5),
        ResourceTransaction::new(ResourceType::SRElectronics, 3),
    ];
    m.apply_many(batch);
    assert_eq!(quantity(&m, ResourceType::PRPreciousMetals), 0);
    assert_eq!(quantity(&m, ResourceType::PRSilicon), 0);
    assert_eq!(quantity(&m, ResourceType::SRElectronics), 3);
}

#[test]
fn credit_saturates_at_the_counter_limit() {
    let mut m = ResourceManager::new();
    m.apply(ResourceTransaction::new(ResourceType::CFuelRods, i32::MAX));
    m.apply(ResourceTransaction::new(ResourceType::CFuelRods, i32::MAX));
    m.apply(ResourceTransaction::new(ResourceType::CFuelRods, 10));
    assert_eq!(quantity(&m, ResourceType::CFuelRods), u32::MAX);
}

#[test]
fn resource_grades_follow_the_type_ordering() {
    assert_eq!(ResourceType::PRWater.grade(), ResourceGrade::Primary);
    assert_eq!(ResourceType::SRKerosene.grade(), ResourceGrade::Secondary);
    assert_eq!(ResourceType::CSensors.grade(), ResourceGrade::Component);
}

#[test]
fn resource_type_indices_round_trip() {
    for i in 0..17 {
        let t = ResourceType::from_index(i);
        assert_eq!(t.type_index(), i);
    }
}
