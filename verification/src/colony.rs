//! A colony: one settled planet with its buildings, ledger and deposit.

use crate::building::BuildingType;
use crate::building_manager::counts_after_tick_spec;
use crate::building_manager::mining_effect_spec;
use crate::building_manager::production_spec;
use crate::building_manager::tick_queue_spec;
use crate::building_manager::BuildingManager;
use crate::color::MenuColor;
use crate::construction_process::ConstructionProcess;
use crate::resource::ResourceDeposit;
use crate::rng::weight_sum;
use crate::resource::ResourceType;
use crate::resource_manager::ResourceManager;
use crate::text::u32_text;
use vstd::prelude::*;

verus! {

/// Mining rounds run per resource step: each standing mine samples the
/// deposit this many times per step.
pub const MINING_ROUNDS: usize = 10;

/// How one construction tick changes a colony: the queue and counts move
/// as the building manager dictates; everything else stays.
pub open spec fn construction_step_spec(c0: Colony, c1: Colony) -> bool {
    &&& c1.planet_name == c0.planet_name
    &&& c1.population == c0.population
    &&& c1.resource_deposit == c0.resource_deposit
    &&& c1.resource_manager == c0.resource_manager
    &&& c1.building_manager.construction@ == tick_queue_spec(c0.building_manager.construction@)
    &&& c1.building_manager.buildings@ == counts_after_tick_spec(
        c0.building_manager.buildings@,
        c0.building_manager.construction@,
    )
    &&& c1.building_manager.construction_limit == c0.building_manager.construction_limit
}

/// How one resource step changes a colony: the ledger takes a mining
/// pass of [`MINING_ROUNDS`] rounds per mine followed by one production
/// pass; everything else stays.
pub open spec fn resource_step_spec(c0: Colony, c1: Colony) -> bool {
    &&& c1.planet_name == c0.planet_name
    &&& c1.population == c0.population
    &&& c1.resource_deposit == c0.resource_deposit
    &&& c1.building_manager == c0.building_manager
    &&& exists|mid: Seq<u32>|
        mining_effect_spec(
            c0.resource_manager.resources@,
            mid,
            c0.resource_deposit,
            10 * c0.building_manager.buildings@[0],
        ) && c1.resource_manager.resources@ == #[trigger] production_spec(
            mid,
            c0.building_manager.buildings@,
        )
}

/// How one `start_construction` call changes a colony: the project is
/// appended when the queue has room, dropped at capacity; nothing else
/// moves.
pub open spec fn start_construction_step_spec(c0: Colony, c1: Colony, b: BuildingType) -> bool {
    &&& c1.planet_name == c0.planet_name
    &&& c1.population == c0.population
    &&& c1.resource_manager == c0.resource_manager
    &&& c1.resource_deposit == c0.resource_deposit
    &&& c1.building_manager.buildings == c0.building_manager.buildings
    &&& c1.building_manager.construction_limit == c0.building_manager.construction_limit
    &&& c1.building_manager.construction@ == if c0.building_manager.construction@.len()
        < c0.building_manager.construction_limit {
        c0.building_manager.construction@.push(
            ConstructionProcess {
                building_type: b,
                progress: 0,
                construction_time: b.construction_time_spec(),
            },
        )
    } else {
        c0.building_manager.construction@
    }
}

/// One settled planet: identity, population, buildings, ledger, deposit.
#[derive(Clone, Debug)]
pub struct Colony {
    pub planet_name: String,
    pub population: i32,
    pub building_manager: BuildingManager,
    pub resource_manager: ResourceManager,
    pub resource_deposit: ResourceDeposit,
}

impl Colony {
    /// Structural invariant: all three managers well formed.
    pub open spec fn wf(self) -> bool {
        &&& self.building_manager.wf()
        &&& self.resource_manager.wf()
        &&& self.resource_deposit.wf()
    }

    /// Founds a colony on the named planet: no buildings, an empty
    /// ledger, and a freshly generated deposit.
    pub fn new(planet_name: String, population: i32) -> (c: Self)
        ensures
            c.wf(),
            c.planet_name == planet_name,
            c.population == population,
            forall|i: int| 0 <= i < 14 ==> c.building_manager.buildings@[i] == 0,
            c.building_manager.construction@.len() == 0,
            forall|i: int| 0 <= i < 17 ==> c.resource_manager.resources@[i] == 0,
            weight_sum(c.resource_deposit.weights@) == 100,
            forall|i: int| 0 <= i < 6 ==> c.resource_deposit.weights@[i] >= 1,
    {
        Colony {
            planet_name,
            population,
            building_manager: BuildingManager::new(),
            resource_manager: ResourceManager::new(),
            resource_deposit: ResourceDeposit::generate_for_planet(),
        }
    }

    /// Assembles a colony from explicit parts.
    pub fn from_parts(
        planet_name: String,
        population: i32,
        building_manager: BuildingManager,
        resource_manager: ResourceManager,
        resource_deposit: ResourceDeposit,
    ) -> (c: Self)
        requires
            building_manager.wf(),
            resource_manager.wf(),
            resource_deposit.wf(),
        ensures
            c.wf(),
            c.planet_name == planet_name,
            c.population == population,
            c.building_manager == building_manager,
            c.resource_manager == resource_manager,
            c.resource_deposit == resource_deposit,
    {
        Colony { planet_name, population, building_manager, resource_manager, resource_deposit }
    }

    /// One construction tick.
    pub fn tick(&mut self)
        requires
            old(self).wf(),
        ensures
            final(self).wf(),
            construction_step_spec(*old(self), *final(self)),
    {
        self.building_manager.update_construction();
    }

    /// One resource step: every mine runs [`MINING_ROUNDS`] mining
    /// rounds, then every standing factory runs one production batch.
    pub fn resource_tick(&mut self)
        requires
            old(self).wf(),
        ensures
            final(self).wf(),
            resource_step_spec(*old(self), *final(self)),
    {
        self.building_manager.update_mines(
            &mut self.resource_manager,
            &self.resource_deposit,
            MINING_ROUNDS,
        );
        let ghost mid = self.resource_manager.resources@;
        self.building_manager.update_production(&mut self.resource_manager);
        proof {
            assert(mining_effect_spec(
                old(self).resource_manager.resources@,
                mid,
                old(self).resource_deposit,
                10 * old(self).building_manager.buildings@[0],
            ));
        }
    }

    /// Population of the colony.
    pub fn get_population(&self) -> (r: i32)
        ensures
            r == self.population,
    {
        self.population
    }

    /// Name of the settled planet.
    pub fn get_name(&self) -> (r: &String)
        ensures
            r == &self.planet_name,
    {
        &self.planet_name
    }

    /// Display projection of the standing buildings.
    pub fn get_buildings(&self) -> (r: Vec<(String, u32, MenuColor)>)
        requires
            self.wf(),
        ensures
            r@.len() == 14,
            forall|i: int|
                0 <= i < 14 ==> (#[trigger] r@[i]).1 == self.building_manager.buildings@[i],
    {
        self.building_manager.get_buildings()
    }

    /// Snapshot of the ledger.
    pub fn get_resources(&self) -> (r: Vec<(ResourceType, u32)>)
        requires
            self.wf(),
        ensures
            r@.len() == 17,
            forall|i: int| 0 <= i < 17 ==> (#[trigger] r@[i]) == (
                ResourceType::from_index_spec(i),
                self.resource_manager.resources@[i],
            ),
    {
        self.resource_manager.get_resources()
    }

    /// Display projection of the construction queue.
    pub fn get_construction(&self) -> (r: Vec<(String, u32)>)
        requires
            self.wf(),
        ensures
            r@.len() == self.building_manager.construction@.len(),
            forall|i: int|
                0 <= i < self.building_manager.construction@.len() ==> (#[trigger] r@[i]).1
                    == self.building_manager.construction@[i].progress as int * 100 / (
                self.building_manager.construction@[i].construction_time as int),
    {
        self.building_manager.get_construction()
    }

    /// Queues a building project, unless the queue is at capacity.
    pub fn start_construction(&mut self, building_type: BuildingType)
        requires
            old(self).wf(),
        ensures
            final(self).wf(),
            start_construction_step_spec(*old(self), *final(self), building_type),
    {
        self.building_manager.start_construction(building_type);
    }

    /// Display card of the colony: its name line, its population line,
    /// and one line per resource, greyed out at zero stock.
    pub fn get_info(&self) -> (r: Vec<(String, MenuColor)>)
        requires
            self.wf(),
        ensures
            r@.len() == 19,
            r@[0].1 == MenuColor::Cyan,
            r@[1].1 == MenuColor::Gray,
            forall|i: int|
                2 <= i < 19 ==> (#[trigger] r@[i]).1 == if self.resource_manager.resources@[i - 2]
                    == 0 {
                    MenuColor::DarkGray
                } else {
                    match ResourceType::from_index_spec(i - 2).grade_spec() {
                        crate::resource::ResourceGrade::Primary => MenuColor::Gray,
                        crate::resource::ResourceGrade::Secondary => MenuColor::LightYellow,
                        crate::resource::ResourceGrade::Component => MenuColor::LightCyan,
                    }
                },
    {
        let mut lines: Vec<(String, MenuColor)> = Vec::new();
        let mut name_line = String::from_str("Name: ");
        name_line.append(self.planet_name.as_str());
        lines.push((name_line, MenuColor::Cyan));
        let mut pop_line = String::from_str("Population: ");
        let pop: u32 = if self.population >= 0 {
            self.population as u32
        } else {
            0
        };
        let pop_text = u32_text(pop);
        pop_line.append(pop_text.as_str());
        lines.push((pop_line, MenuColor::Gray));
        let mut i: usize = 0;
        while i < 17
            invariant
                self.wf(),
                i <= 17,
                lines@.len() == i + 2,
                lines@[0].1 == MenuColor::Cyan,
                lines@[1].1 == MenuColor::Gray,
                forall|j: int|
                    2 <= j < i + 2 ==> (#[trigger] lines@[j]).1 == if
                    self.resource_manager.resources@[j - 2] == 0 {
                        MenuColor::DarkGray
                    } else {
                        match ResourceType::from_index_spec(j - 2).grade_spec() {
                            crate::resource::ResourceGrade::Primary => MenuColor::Gray,
                            crate::resource::ResourceGrade::Secondary => MenuColor::LightYellow,
                            crate::resource::ResourceGrade::Component => MenuColor::LightCyan,
                        }
                    },
            decreases 17 - i,
        {
            let rt = ResourceType::from_index(i);
            let amount = self.resource_manager.get_quantity(rt);
            let mut line = rt.get_name();
            line.append(": ");
            let amount_text = u32_text(amount);
            line.append(amount_text.as_str());
            let color = if amount == 0 {
                MenuColor::DarkGray
            } else {
                rt.get_menu_color()
            };
            lines.push((line, color));
            i = i + 1;
        }
        lines
    }
}

} // verus!
