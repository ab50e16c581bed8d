//! The root aggregate: systems, colonies, research, and the two-speed
//! tick.
//!
//! Every call of [`GameState::tick`] advances research and colony
//! construction.  Colony resource work (mining and production) runs only
//! every `resource_tick_ratio`-th call, counted by
//! `resource_tick_counter`.  That two-speed structure is part of the
//! contract: construction moves on all ticks, resources on exactly one
//! tick in `resource_tick_ratio`.

use crate::building::BuildingType;
use crate::color::MenuColor;
use crate::colony::construction_step_spec;
use crate::colony::start_construction_step_spec;
use crate::colony::resource_step_spec;
use crate::colony::Colony;
use crate::research::Research;
use crate::research::ResearchField;
use crate::research_manager::catalog_valid_spec;
use crate::research_manager::dep_entries_spec;
use crate::research_manager::dep_list_matches_spec;
use crate::research_manager::field_color_spec;
use crate::research_manager::field_entries_spec;
use crate::research_manager::find_research_spec;
use crate::research_manager::progress_percent_spec;
use crate::research_manager::research_color_spec;
use crate::research_manager::research_text_spec;
use crate::research_manager::research_ticked_spec;
use crate::research_manager::start_step_spec;
use crate::research_manager::can_start_spec;
use crate::research_manager::ResearchManager;
use crate::solar_system::SolarSystem;
use vstd::prelude::*;

verus! {

/// How one full tick changes one colony: construction always steps;
/// the resource step follows only when the counter fires.
pub open spec fn colony_tick_spec(c0: Colony, c1: Colony, fire: bool) -> bool {
    if fire {
        exists|mid: Colony|
            #[trigger] construction_step_spec(c0, mid) && resource_step_spec(mid, c1)
    } else {
        construction_step_spec(c0, c1)
    }
}

/// The root game state.
pub struct GameState {
    /// Known star systems; the starting system comes first.
    pub systems: Vec<SolarSystem>,
    /// Settled colonies.
    pub colonies: Vec<Colony>,
    /// Resource work runs once per this many ticks.
    pub resource_tick_ratio: u32,
    /// Ticks since the last resource step.
    pub resource_tick_counter: u32,
    /// The research engine.
    pub research_manager: ResearchManager,
}

impl GameState {
    /// Structural invariant: everything well formed, a positive ratio,
    /// and a counter strictly inside it.
    pub open spec fn wf(self) -> bool {
        &&& forall|i: int| 0 <= i < self.systems@.len() ==> (#[trigger] self.systems@[i]).wf()
        &&& forall|i: int| 0 <= i < self.colonies@.len() ==> (#[trigger] self.colonies@[i]).wf()
        &&& self.research_manager.wf()
        &&& 1 <= self.resource_tick_ratio
        &&& self.resource_tick_counter < self.resource_tick_ratio
    }

    /// Starts a fresh game: systems are generated until one has a planet
    /// in the habitable zone (best effort, bounded retries), that planet
    /// is colonised, and the research catalog is installed with nothing
    /// started.
    pub fn new(
        star_names: &Vec<String>,
        fields: Vec<ResearchField>,
        researches: Vec<Research>,
    ) -> (g: GameState)
        requires
            star_names@.len() >= 1,
            catalog_valid_spec(researches@),
        ensures
            g.wf(),
            g.systems@.len() == 1,
            g.colonies@.len() == 1,
            g.resource_tick_ratio == 2,
            g.resource_tick_counter == 0,
            g.research_manager.progress@.len() == 0,
            g.research_manager.fields == fields,
            g.research_manager.researches == researches,
            exists|i: int|
                0 <= i < star_names@.len() && g.systems@[0].star.name@ == (
                #[trigger] star_names@[i])@,
            exists|i: int|
                0 <= i < g.systems@[0].planets@.len() && g.colonies@[0].planet_name@ == (
                #[trigger] g.systems@[0].planets@[i]).name@,
    {
        let mut system = SolarSystem::generate(star_names);
        let mut attempts: u32 = 0;
        while attempts < 32 && system.has_planets_in_habitable_zone().is_none()
            invariant
                star_names@.len() >= 1,
                system.wf(),
                1 <= system.planets@.len() <= 12,
                exists|i: int|
                    0 <= i < star_names@.len() && system.star.name@ == (
                    #[trigger] star_names@[i])@,
            decreases 32 - attempts,
        {
            system = SolarSystem::generate(star_names);
            attempts = attempts + 1;
        }
        let capital_name: String = match system.has_planets_in_habitable_zone() {
            Some(p) => p.name.clone(),
            None => system.planets[0].name.clone(),
        };
        let colony = Colony::new(capital_name, 5000);
        let mut systems: Vec<SolarSystem> = Vec::new();
        systems.push(system);
        let mut colonies: Vec<Colony> = Vec::new();
        colonies.push(colony);
        GameState {
            systems,
            colonies,
            resource_tick_ratio: 2,
            resource_tick_counter: 0,
            research_manager: ResearchManager::new(fields, researches),
        }
    }

    /// Assembles a game state from explicit parts, with the counter at
    /// zero.
    pub fn from_parts(
        systems: Vec<SolarSystem>,
        colonies: Vec<Colony>,
        research_manager: ResearchManager,
        resource_tick_ratio: u32,
    ) -> (g: GameState)
        requires
            forall|i: int| 0 <= i < systems@.len() ==> (#[trigger] systems@[i]).wf(),
            forall|i: int| 0 <= i < colonies@.len() ==> (#[trigger] colonies@[i]).wf(),
            research_manager.wf(),
            resource_tick_ratio >= 1,
        ensures
            g.wf(),
            g.systems == systems,
            g.colonies == colonies,
            g.research_manager == research_manager,
            g.resource_tick_ratio == resource_tick_ratio,
            g.resource_tick_counter == 0,
    {
        GameState {
            systems,
            colonies,
            resource_tick_ratio,
            resource_tick_counter: 0,
            research_manager,
        }
    }

    /// One simulated step: research always advances; every colony's
    /// construction always advances; colony resource work fires only on
    /// every `resource_tick_ratio`-th call.
    pub fn tick(&mut self)
        requires
            old(self).wf(),
        ensures
            final(self).wf(),
            final(self).systems == old(self).systems,
            final(self).resource_tick_ratio == old(self).resource_tick_ratio,
            research_ticked_spec(old(self).research_manager, final(self).research_manager),
            final(self).colonies@.len() == old(self).colonies@.len(),
            final(self).resource_tick_counter == if old(self).resource_tick_counter + 1 == old(
                self,
            ).resource_tick_ratio {
                0u32
            } else {
                (old(self).resource_tick_counter + 1) as u32
            },
            forall|i: int|
                0 <= i < old(self).colonies@.len() ==> colony_tick_spec(
                    #[trigger] old(self).colonies@[i],
                    final(self).colonies@[i],
                    old(self).resource_tick_counter + 1 == old(self).resource_tick_ratio,
                ),
    {
        self.research_manager.tick();
        let fire = self.resource_tick_counter + 1 == self.resource_tick_ratio;
        if fire {
            self.resource_tick_counter = 0;
        } else {
            self.resource_tick_counter = self.resource_tick_counter + 1;
        }
        let ghost colonies0 = self.colonies@;
        let ghost frozen = *self;
        let mut work: Vec<Colony> = Vec::new();
        core::mem::swap(&mut self.colonies, &mut work);
        let n = work.len();
        let mut i: usize = 0;
        while i < n
            invariant
                self.systems == frozen.systems,
                self.research_manager == frozen.research_manager,
                self.resource_tick_ratio == frozen.resource_tick_ratio,
                self.resource_tick_counter == frozen.resource_tick_counter,
                i <= n,
                n == colonies0.len(),
                work@ == colonies0.skip(i as int),
                self.colonies@.len() == i,
                forall|j: int| 0 <= j < colonies0.len() ==> (#[trigger] colonies0[j]).wf(),
                forall|j: int| 0 <= j < i ==> (#[trigger] self.colonies@[j]).wf(),
                forall|j: int|
                    0 <= j < i ==> colony_tick_spec(
                        #[trigger] colonies0[j],
                        self.colonies@[j],
                        fire,
                    ),
            decreases n - i,
        {
            let mut c = work.remove(0);
            proof {
                assert(colonies0.skip(i as int)[0] == colonies0[i as int]);
                assert(colonies0.skip(i as int).subrange(
                    1,
                    colonies0.skip(i as int).len() as int,
                ) =~= colonies0.skip(i + 1));
            }
            c.tick();
            if fire {
                let ghost mid = c;
                c.resource_tick();
                proof {
                    assert(construction_step_spec(colonies0[i as int], mid));
                }
            }
            self.colonies.push(c);
            i = i + 1;
        }
    }

    /// The system the game started in.
    pub fn get_starting_system(&self) -> (r: &SolarSystem)
        requires
            self.systems@.len() >= 1,
        ensures
            r == &self.systems@[0],
    {
        &self.systems[0]
    }

    /// The colonies, in founding order.
    pub fn get_colonies(&self) -> (r: &Vec<Colony>)
        ensures
            r == &self.colonies,
    {
        &self.colonies
    }

    /// The first colony settled on the named planet, in founding order,
    /// if any.
    pub fn get_colony_by_name(&self, name: &String) -> (r: Option<&Colony>)
        ensures
            match r {
                Some(c) => c.planet_name@ == name@ && exists|i: int|
                    0 <= i < self.colonies@.len() && (#[trigger] self.colonies@[i]) == *c && (
                    forall|j: int|
                        0 <= j < i ==> (#[trigger] self.colonies@[j]).planet_name@ != name@),
                None => forall|i: int|
                    0 <= i < self.colonies@.len() ==> (#[trigger] self.colonies@[i]).planet_name@
                        != name@,
            },
    {
        let mut i: usize = 0;
        while i < self.colonies.len()
            invariant
                i <= self.colonies@.len(),
                forall|j: int|
                    0 <= j < i ==> (#[trigger] self.colonies@[j]).planet_name@ != name@,
            decreases self.colonies@.len() - i,
        {
            if self.colonies[i].planet_name == *name {
                return Some(&self.colonies[i]);
            }
            i = i + 1;
        }
        None
    }

    /// Queues a building on the named colony.  Returns whether a colony
    /// with that name exists; at a full queue the command is accepted and
    /// dropped, as the queue contract says.
    pub fn start_construction(&mut self, colony_name: &String, building: BuildingType) -> (r:
        bool)
        requires
            old(self).wf(),
        ensures
            final(self).wf(),
            final(self).systems == old(self).systems,
            final(self).research_manager == old(self).research_manager,
            final(self).resource_tick_ratio == old(self).resource_tick_ratio,
            final(self).resource_tick_counter == old(self).resource_tick_counter,
            r == exists|i: int|
                0 <= i < old(self).colonies@.len() && (#[trigger] old(
                    self,
                ).colonies@[i]).planet_name@ == colony_name@,
            !r ==> final(self).colonies == old(self).colonies,
            r ==> exists|i: int|
                {
                    &&& 0 <= i < old(self).colonies@.len()
                    &&& (#[trigger] old(self).colonies@[i]).planet_name@ == colony_name@
                    &&& forall|j: int|
                        0 <= j < i ==> (#[trigger] old(self).colonies@[j]).planet_name@
                            != colony_name@
                    &&& final(self).colonies@ == old(self).colonies@.update(
                        i,
                        final(self).colonies@[i],
                    )
                    &&& start_construction_step_spec(
                        old(self).colonies@[i],
                        final(self).colonies@[i],
                        building,
                    )
                },
    {
        let mut i: usize = 0;
        while i < self.colonies.len()
            invariant
                self == old(self),
                self.wf(),
                i <= self.colonies@.len(),
                forall|j: int|
                    0 <= j < i ==> (#[trigger] self.colonies@[j]).planet_name@ != colony_name@,
            decreases self.colonies@.len() - i,
        {
            if self.colonies[i].planet_name == *colony_name {
                let mut c = self.colonies.remove(i);
                c.start_construction(building);
                let ghost c1 = c;
                self.colonies.insert(i, c);
                proof {
                    assert(self.colonies@ =~= old(self).colonies@.update(i as int, c1));
                }
                return true;
            }
            i = i + 1;
        }
        false
    }

    /// Starts the research with this id (see
    /// [`ResearchManager::start_research`]).  Returns whether the id
    /// names a catalog entry.
    pub fn start_research(&mut self, id: &String) -> (found: bool)
        requires
            old(self).wf(),
        ensures
            final(self).wf(),
            final(self).systems == old(self).systems,
            final(self).colonies == old(self).colonies,
            final(self).resource_tick_ratio == old(self).resource_tick_ratio,
            final(self).resource_tick_counter == old(self).resource_tick_counter,
            found == (find_research_spec(old(self).research_manager.researches@, id@) is Some),
            start_step_spec(
                old(self).research_manager.progress@,
                final(self).research_manager.progress@,
                id@,
                can_start_spec(old(self).research_manager, id@),
            ),
    {
        self.research_manager.start_research(id)
    }

    /// Every research field with its summary colour.
    pub fn get_research_fields(&self) -> (r: Vec<(String, String, MenuColor)>)
        requires
            self.wf(),
        ensures
            r@.len() == self.research_manager.fields@.len(),
            forall|k: int|
                0 <= k < self.research_manager.fields@.len() ==> (#[trigger] r@[k]).0@
                    == self.research_manager.fields@[k].id@ && r@[k].1@
                    == self.research_manager.fields@[k].name@ && r@[k].2 == field_color_spec(
                    self.research_manager,
                    self.research_manager.fields@[k].id@,
                ),
    {
        self.research_manager.get_research_fields()
    }

    /// Info card of a research.
    pub fn get_research_info(&self, id: &String) -> (r: Vec<Vec<String>>)
        ensures
            match find_research_spec(self.research_manager.researches@, id@) {
                None => r@.len() == 0,
                Some(res) => r@.len() == 3 && r@[0]@.len() == 1 && r@[0]@[0]@ == res.name@,
            },
    {
        self.research_manager.get_research_info(id)
    }

    /// Dependency lists of a research.
    pub fn get_research_dependency_info(&self, id: &String) -> (r: Vec<Vec<(String, bool)>>)
        ensures
            match find_research_spec(self.research_manager.researches@, id@) {
                None => r@.len() == 0,
                Some(res) => {
                    &&& r@.len() == 2
                    &&& dep_list_matches_spec(
                        r@[0]@,
                        dep_entries_spec(
                            self.research_manager.researches@,
                            self.research_manager.progress@,
                            res.required_all@,
                        ),
                    )
                    &&& dep_list_matches_spec(
                        r@[1]@,
                        dep_entries_spec(
                            self.research_manager.researches@,
                            self.research_manager.progress@,
                            res.required_any@,
                        ),
                    )
                },
            },
    {
        self.research_manager.get_dependency_info(id)
    }

    /// The researches of one field, with their colours.
    pub fn get_researches_by_field(&self, id: &String) -> (r: Vec<(String, String, MenuColor)>)
        requires
            self.wf(),
        ensures
            ({
                let entries = field_entries_spec(self.research_manager.researches@, id@);
                &&& r@.len() == entries.len()
                &&& forall|k: int|
                    0 <= k < entries.len() ==> (#[trigger] r@[k]).0@ == entries[k].id@ && r@[k].1@
                        == entries[k].name@ && r@[k].2 == research_color_spec(
                        self.research_manager,
                        entries[k].id@,
                    )
            }),
    {
        self.research_manager.get_researches_with_colors_by_field(id)
    }

    /// Status line of a research.
    pub fn get_research_progress_text(&self, id: &String) -> (r: String)
        requires
            self.wf(),
        ensures
            r@ == research_text_spec(self.research_manager, id@),
    {
        self.research_manager.get_research_text(id)
    }

    /// Completion percentage of a research.
    pub fn get_research_progress(&self, id: &String) -> (r: u32)
        requires
            self.wf(),
        ensures
            r == progress_percent_spec(self.research_manager, id@),
            r <= 100,
    {
        self.research_manager.get_research_progress(id)
    }

    /// Display colour of a research.
    pub fn get_research_color(&self, id: &String) -> (c: MenuColor)
        requires
            self.wf(),
        ensures
            c == research_color_spec(self.research_manager, id@),
    {
        self.research_manager.get_research_color(id)
    }
}

} // verus!
