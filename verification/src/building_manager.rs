//! Per-colony building counts and the bounded construction queue.
//!
//! The queue holds at most [`CONSTRUCTION_LIMIT`] projects; starting one
//! at capacity is a silent no-op.  Each tick every queued project gains
//! one tick of work, and a project that reaches its target leaves the
//! queue and raises the count of its building type by one.  Production
//! and mining read the standing counts and drive the colony's ledger.

use crate::building::BuildingType;
use crate::building::FactoryType;
use crate::color::MenuColor;
use crate::construction_process::ConstructionProcess;
use crate::resource::ResourceDeposit;
use crate::resource::ResourceTransaction;
use crate::resource_manager::apply_many_spec;
use crate::resource_manager::apply_spec;
use crate::resource_manager::lemma_sum_upto_update;
use crate::resource_manager::primary_total_spec;
use crate::resource_manager::saturating_balance;
use crate::resource_manager::ResourceManager;
use vstd::prelude::*;

verus! {

/// Capacity of a colony's construction queue.
pub const CONSTRUCTION_LIMIT: u32 = 10;

/// A building count raised by one, saturating at the counter limit.
pub open spec fn bump_spec(c: u32) -> u32 {
    if c < u32::MAX {
        (c + 1) as u32
    } else {
        c
    }
}

/// The queue after one construction tick: every project advances one
/// tick of work and the completed ones leave, order preserved.
pub open spec fn tick_queue_spec(s: Seq<ConstructionProcess>) -> Seq<ConstructionProcess>
    decreases s.len(),
{
    if s.len() == 0 {
        Seq::empty()
    } else {
        let rest = tick_queue_spec(s.drop_last());
        let p = s.last().advanced_spec(1);
        if p.progress == p.construction_time {
            rest
        } else {
            rest.push(p)
        }
    }
}

/// Building counts after one construction tick: each completed project
/// raises the count of its type by one.
pub open spec fn counts_after_tick_spec(b: Seq<u32>, s: Seq<ConstructionProcess>) -> Seq<u32>
    decreases s.len(),
{
    if s.len() == 0 {
        b
    } else {
        let b1 = counts_after_tick_spec(b, s.drop_last());
        let p = s.last().advanced_spec(1);
        if p.progress == p.construction_time {
            let i = p.building_type.type_index_spec();
            b1.update(i, bump_spec(b1[i]))
        } else {
            b1
        }
    }
}

/// Ledger balances after every standing factory, in factory order, has
/// run one production batch (factories up to index `n`).
pub open spec fn production_upto_spec(q: Seq<u32>, b: Seq<u32>, n: int) -> Seq<u32>
    decreases n,
{
    if n <= 0 {
        q
    } else {
        let q1 = production_upto_spec(q, b, n - 1);
        let f = FactoryType::from_index_spec(n - 1);
        if b[n] > 0 {
            apply_many_spec(q1, f.production_transactions_spec())
        } else {
            q1
        }
    }
}

/// Ledger balances after one full production pass over the 11 factory
/// kinds.
pub open spec fn production_spec(q: Seq<u32>, b: Seq<u32>) -> Seq<u32> {
    production_upto_spec(q, b, 11)
}

/// What one mining pass guarantees whatever the deposit samples turn out
/// to be, for `samples` total draws: non-primary balances and primaries
/// absent from the deposit never move, no balance moves by more than the
/// number of draws, and unless a counter could saturate the primary total
/// grows by exactly the number of draws.
pub open spec fn mining_effect_spec(
    q0: Seq<u32>,
    q1: Seq<u32>,
    d: ResourceDeposit,
    samples: int,
) -> bool {
    &&& forall|i: int| 6 <= i < 17 ==> q1[i] == #[trigger] q0[i]
    &&& forall|i: int| 0 <= i < 6 && d.weight_spec(i) == 0 ==> q1[i] == #[trigger] q0[i]
    &&& forall|i: int| 0 <= i < 6 ==> #[trigger] q0[i] <= q1[i] <= q0[i] + samples
    &&& ((forall|i: int| 0 <= i < 6 ==> #[trigger] q0[i] + samples <= u32::MAX)
        ==> primary_total_spec(q1) == primary_total_spec(q0) + samples)
}

/// Per-colony building counts plus the construction queue.
#[derive(Clone, Debug, PartialEq, Eq)]
pub struct BuildingManager {
    /// Count per building type, indexed by the fixed type ordering.
    pub buildings: Vec<u32>,
    /// Queued building projects, oldest first.
    pub construction: Vec<ConstructionProcess>,
    /// Capacity of the construction queue.
    pub construction_limit: u32,
}

impl BuildingManager {
    /// Structural invariant: one count per building type, a queue within
    /// its capacity, and every queued project well formed.
    pub open spec fn wf(self) -> bool {
        &&& self.buildings@.len() == 14
        &&& self.construction@.len() <= self.construction_limit
        &&& forall|i: int|
            0 <= i < self.construction@.len() ==> (#[trigger] self.construction@[i]).wf()
    }

    /// A colony with no buildings and an empty queue.
    pub fn new() -> (r: Self)
        ensures
            r.wf(),
            forall|i: int| 0 <= i < 14 ==> r.buildings@[i] == 0,
            r.construction@.len() == 0,
            r.construction_limit == CONSTRUCTION_LIMIT,
    {
        let mut v: Vec<u32> = Vec::new();
        let mut i: usize = 0;
        while i < 14
            invariant
                i <= 14,
                v@.len() == i,
                forall|j: int| 0 <= j < i ==> v@[j] == 0,
            decreases 14 - i,
        {
            v.push(0);
            i = i + 1;
        }
        BuildingManager {
            buildings: v,
            construction: Vec::new(),
            construction_limit: CONSTRUCTION_LIMIT,
        }
    }

    /// Count of standing buildings of one type.
    pub fn get_building_count(&self, building_type: &BuildingType) -> (c: u32)
        requires
            self.wf(),
        ensures
            c == self.buildings@[building_type.type_index_spec()],
    {
        self.buildings[building_type.type_index()]
    }

    /// Raises the count of one building type by one (saturating).
    pub fn add_building(&mut self, building_type: &BuildingType)
        requires
            old(self).wf(),
        ensures
            final(self).wf(),
            final(self).buildings@ == old(self).buildings@.update(
                building_type.type_index_spec(),
                bump_spec(old(self).buildings@[building_type.type_index_spec()]),
            ),
            final(self).construction == old(self).construction,
            final(self).construction_limit == old(self).construction_limit,
    {
        let i = building_type.type_index();
        let cur = self.buildings[i];
        let next: u32 = if cur < u32::MAX {
            cur + 1
        } else {
            cur
        };
        self.buildings.set(i, next);
    }

    /// Queues a building project, unless the queue is at capacity (then
    /// nothing happens).
    pub fn start_construction(&mut self, building_type: BuildingType)
        requires
            old(self).wf(),
        ensures
            final(self).wf(),
            final(self).construction@ == if old(self).construction@.len() < old(
                self,
            ).construction_limit {
                old(self).construction@.push(
                    ConstructionProcess {
                        building_type,
                        progress: 0,
                        construction_time: building_type.construction_time_spec(),
                    },
                )
            } else {
                old(self).construction@
            },
            final(self).buildings == old(self).buildings,
            final(self).construction_limit == old(self).construction_limit,
    {
        if self.construction.len() < self.construction_limit as usize {
            self.construction.push(ConstructionProcess::new(building_type));
        }
    }

    /// One construction tick: every queued project gains one tick of
    /// work; completed projects leave the queue and raise their type's
    /// count.
    pub fn update_construction(&mut self)
        requires
            old(self).wf(),
        ensures
            final(self).wf(),
            final(self).construction@ == tick_queue_spec(old(self).construction@),
            final(self).buildings@ == counts_after_tick_spec(
                old(self).buildings@,
                old(self).construction@,
            ),
            final(self).construction_limit == old(self).construction_limit,
    {
        let ghost q_all = self.construction@;
        let ghost b0 = self.buildings@;
        let mut new_queue: Vec<ConstructionProcess> = Vec::new();
        let mut i: usize = 0;
        while i < self.construction.len()
            invariant
                self.wf(),
                self.construction@ == q_all,
                self.construction_limit == old(self).construction_limit,
                i <= q_all.len(),
                new_queue@ == tick_queue_spec(q_all.take(i as int)),
                new_queue@.len() <= i,
                forall|j: int| 0 <= j < new_queue@.len() ==> (#[trigger] new_queue@[j]).wf(),
                self.buildings@ == counts_after_tick_spec(b0, q_all.take(i as int)),
                self.buildings@.len() == 14,
            decreases q_all.len() - i,
        {
            proof {
                assert(q_all.take(i + 1).drop_last() =~= q_all.take(i as int));
                assert(q_all.take(i + 1).last() == q_all[i as int]);
            }
            let mut p = self.construction[i];
            let finished = p.update(1);
            if finished {
                let b = p.building_type();
                let bi = b.type_index();
                let cur = self.buildings[bi];
                let next: u32 = if cur < u32::MAX {
                    cur + 1
                } else {
                    cur
                };
                self.buildings.set(bi, next);
            } else {
                new_queue.push(p);
            }
            i = i + 1;
        }
        proof {
            assert(q_all.take(q_all.len() as int) =~= q_all);
        }
        self.construction = new_queue;
    }

    /// One production pass: every factory kind with a standing count runs
    /// its fixed transaction batch against the ledger, in factory order.
    /// Each factory's batch is atomic on its own; factories are
    /// independent of one another.
    pub fn update_production(&self, manager: &mut ResourceManager)
        requires
            self.wf(),
            old(manager).wf(),
        ensures
            final(manager).wf(),
            final(manager).resources@ == production_spec(old(manager).resources@, self.buildings@),
    {
        let ghost q0 = manager.resources@;
        let mut fi: usize = 0;
        while fi < 11
            invariant
                self.wf(),
                manager.wf(),
                fi <= 11,
                manager.resources@ == production_upto_spec(q0, self.buildings@, fi as int),
            decreases 11 - fi,
        {
            let f = FactoryType::from_index(fi);
            if self.buildings[1 + fi] > 0 {
                manager.apply_many(f.production_transactions());
            }
            fi = fi + 1;
        }
    }

    /// Mining: for `rounds` rounds, each standing mine samples the
    /// deposit once and credits one unit of the sampled primary resource.
    /// Whatever the samples turn out to be: non-primary balances and
    /// primaries absent from the deposit never move, no balance moves by
    /// more than the number of samples, and unless a counter saturates
    /// the primary total grows by exactly `rounds` times the mine count.
    pub fn update_mines(
        &self,
        resource_manager: &mut ResourceManager,
        deposit: &ResourceDeposit,
        rounds: usize,
    )
        requires
            self.wf(),
            old(resource_manager).wf(),
            deposit.wf(),
        ensures
            final(resource_manager).wf(),
            mining_effect_spec(
                old(resource_manager).resources@,
                final(resource_manager).resources@,
                *deposit,
                rounds * self.buildings@[0],
            ),
    {
        let ghost q0 = resource_manager.resources@;
        let mines: u32 = self.buildings[0];
        let ghost total: int = (rounds as int) * (mines as int);
        let ghost mut done: int = 0;
        let mut r: usize = 0;
        while r < rounds
            invariant
                self.wf(),
                resource_manager.wf(),
                deposit.wf(),
                mines == self.buildings@[0],
                q0.len() == 17,
                total == (rounds as int) * (mines as int),
                r <= rounds,
                done == (r as int) * (mines as int),
                0 <= done <= total,
                forall|i: int| 6 <= i < 17 ==> resource_manager.resources@[i] == #[trigger] q0[i],
                forall|i: int|
                    0 <= i < 6 && deposit.weight_spec(i) == 0
                        ==> resource_manager.resources@[i] == #[trigger] q0[i],
                forall|i: int|
                    0 <= i < 6 ==> #[trigger] q0[i] <= resource_manager.resources@[i] <= q0[i]
                        + done,
                (forall|i: int| 0 <= i < 6 ==> #[trigger] q0[i] + total <= u32::MAX) ==> primary_total_spec(
                    resource_manager.resources@,
                ) == primary_total_spec(q0) + done,
            decreases rounds - r,
        {
            let mut m: u32 = 0;
            proof {
                assert((r as int) * (mines as int) + mines == ((r + 1) as int) * (mines as int))
                    by (nonlinear_arith);
                assert(((r + 1) as int) * (mines as int) <= total) by (nonlinear_arith)
                    requires
                        r + 1 <= rounds,
                        total == (rounds as int) * (mines as int),
                        mines >= 0,
                ;
            }
            while m < mines
                invariant
                    self.wf(),
                    resource_manager.wf(),
                    deposit.wf(),
                    m <= mines,
                    q0.len() == 17,
                    done == (r as int) * (mines as int) + m,
                    (r as int) * (mines as int) + mines <= total,
                    0 <= done <= total,
                    forall|i: int| 6 <= i < 17 ==> resource_manager.resources@[i] == #[trigger] q0[i],
                    forall|i: int|
                        0 <= i < 6 && deposit.weight_spec(i) == 0
                            ==> resource_manager.resources@[i] == #[trigger] q0[i],
                    forall|i: int|
                        0 <= i < 6 ==> #[trigger] q0[i] <= resource_manager.resources@[i] <= q0[i]
                            + done,
                    (forall|i: int| 0 <= i < 6 ==> #[trigger] q0[i] + total <= u32::MAX)
                        ==> primary_total_spec(resource_manager.resources@) == primary_total_spec(
                        q0,
                    ) + done,
                decreases mines - m,
            {
                let ghost q_before = resource_manager.resources@;
                let sampled = deposit.sample();
                let ghost si = sampled.type_index_spec();
                resource_manager.apply(ResourceTransaction::new(sampled, 1));
                proof {
                    done = done + 1;
                    lemma_sum_upto_update(q_before, si, saturating_balance(q_before[si] + 1), 6);
                    if q_before[si] == u32::MAX {
                        assert(resource_manager.resources@ =~= q_before);
                        // Under the no-saturation hypothesis this branch is
                        // impossible: the balance is still short of the cap.
                        if forall|i: int| 0 <= i < 6 ==> #[trigger] q0[i] + total <= u32::MAX {
                            assert(q0[si] + total <= u32::MAX);
                            assert(q_before[si] <= q0[si] + (done - 1));
                            assert(false);
                        }
                    }
                }
                m = m + 1;
            }
            r = r + 1;
        }
        proof {
            assert((rounds as int) * (mines as int) == total);
        }
    }

    /// Display projection of the standing buildings: every building type
    /// with its name, count and colour, in type order.
    pub fn get_buildings(&self) -> (r: Vec<(String, u32, MenuColor)>)
        requires
            self.wf(),
        ensures
            r@.len() == 14,
            forall|i: int|
                0 <= i < 14 ==> (#[trigger] r@[i]).0@ == BuildingType::from_index_spec(i).name_spec()
                    && r@[i].1 == self.buildings@[i],
    {
        let mut out: Vec<(String, u32, MenuColor)> = Vec::new();
        let mut i: usize = 0;
        while i < 14
            invariant
                self.wf(),
                i <= 14,
                out@.len() == i,
                forall|j: int|
                    0 <= j < i ==> (#[trigger] out@[j]).0@ == BuildingType::from_index_spec(
                        j,
                    ).name_spec() && out@[j].1 == self.buildings@[j],
            decreases 14 - i,
        {
            let b = BuildingType::from_index(i);
            let name = b.get_name();
            let color = b.get_menu_color();
            out.push((name, self.buildings[i], color));
            i = i + 1;
        }
        out
    }

    /// Display projection of the queue: each project's building name and
    /// completion percentage, oldest first.
    pub fn get_construction(&self) -> (r: Vec<(String, u32)>)
        requires
            self.wf(),
        ensures
            r@.len() == self.construction@.len(),
            forall|i: int|
                0 <= i < self.construction@.len() ==> (#[trigger] r@[i]).0@
                    == self.construction@[i].building_type.name_spec() && r@[i].1
                    == self.construction@[i].progress as int * 100 / (
                self.construction@[i].construction_time as int),
    {
        let mut out: Vec<(String, u32)> = Vec::new();
        let mut i: usize = 0;
        while i < self.construction.len()
            invariant
                self.wf(),
                i <= self.construction@.len(),
                out@.len() == i,
                forall|j: int|
                    0 <= j < i ==> (#[trigger] out@[j]).0@
                        == self.construction@[j].building_type.name_spec() && out@[j].1
                        == self.construction@[j].progress as int * 100 / (
                    self.construction@[j].construction_time as int),
            decreases self.construction@.len() - i,
        {
            let p = self.construction[i];
            let name = p.building_type().get_name();
            let pct = p.get_percentage();
            out.push((name, pct));
            i = i + 1;
        }
        out
    }
}

} // verus!
