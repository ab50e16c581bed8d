//! One queued building project.

use crate::building::BuildingType;
use vstd::prelude::*;

verus! {

/// A building project sitting in a colony's construction queue: the type
/// being built, the ticks invested so far, and the fixed target copied
/// from the type at creation.
#[derive(Clone, Copy, Debug, PartialEq, Eq, Structural)]
pub struct ConstructionProcess {
    pub building_type: BuildingType,
    pub progress: u32,
    pub construction_time: u32,
}

impl ConstructionProcess {
    /// Structural invariant: progress never passes the target, and the
    /// target is the one the building type dictates.
    pub open spec fn wf(self) -> bool {
        &&& self.progress <= self.construction_time
        &&& self.construction_time == self.building_type.construction_time_spec()
    }

    /// Starts a project for the given building type.
    pub fn new(building_type: BuildingType) -> (r: Self)
        ensures
            r.wf(),
            r.building_type == building_type,
            r.progress == 0,
            r.construction_time == building_type.construction_time_spec(),
    {
        let construction_time = building_type.get_construction_time();
        ConstructionProcess { building_type, progress: 0, construction_time }
    }

    /// The project after one tick of the given speed.
    pub open spec fn advanced_spec(self, construction_speed: u32) -> ConstructionProcess {
        ConstructionProcess {
            progress: if self.progress + construction_speed <= self.construction_time {
                (self.progress + construction_speed) as u32
            } else {
                self.construction_time
            },
            ..self
        }
    }

    /// Advances the project by `construction_speed` ticks of work, capped
    /// at the target; returns whether the project is now complete.
    pub fn update(&mut self, construction_speed: u32) -> (finished: bool)
        requires
            old(self).wf(),
            construction_speed <= 1000,
        ensures
            final(self).wf(),
            *final(self) == old(self).advanced_spec(construction_speed),
            finished == (final(self).progress == final(self).construction_time),
    {
        if construction_speed <= self.construction_time - self.progress {
            self.progress = self.progress + construction_speed;
        } else {
            self.progress = self.construction_time;
        }
        self.progress == self.construction_time
    }

    /// The type being built.
    pub fn building_type(&self) -> (r: BuildingType)
        ensures
            r == self.building_type,
    {
        self.building_type
    }

    /// Ticks invested so far.
    pub fn progress(&self) -> (r: u32)
        ensures
            r == self.progress,
    {
        self.progress
    }

    /// Ticks needed in total.
    pub fn construction_time(&self) -> (r: u32)
        ensures
            r == self.construction_time,
    {
        self.construction_time
    }

    /// Completion percentage, rounded down.
    pub fn get_percentage(&self) -> (p: u32)
        requires
            self.wf(),
            self.construction_time >= 1,
        ensures
            p == self.progress as int * 100 / (self.construction_time as int),
            p <= 100,
    {
        proof {
            assert(self.progress as int * 100 <= self.construction_time as int * 100)
                by (nonlinear_arith)
                requires
                    self.progress <= self.construction_time,
            ;
            assert(self.progress as int * 100 / (self.construction_time as int) <= 100)
                by (nonlinear_arith)
                requires
                    self.construction_time >= 1,
                    self.progress as int * 100 <= self.construction_time as int * 100,
            ;
        }
        (self.progress as u64 * 100 / self.construction_time as u64) as u32
    }
}

} // verus!
