//! Resource types, transactions and per-planet deposits.

use crate::color::MenuColor;
use crate::rng::rand_in_range;
use crate::rng::weight_sum;
use crate::rng::weighted_pick;
use vstd::prelude::*;

verus! {

/// Number of distinct resource types.
pub const RESOURCE_TYPE_COUNT: usize = 17;

/// Number of primary (minable) resource types; they occupy the first
/// indices of the type ordering.
pub const PRIMARY_RESOURCE_COUNT: usize = 6;

/// The three refinement grades a resource can have.
#[derive(Clone, Copy, Debug, PartialEq, Eq, Structural)]
pub enum ResourceGrade {
    Primary,
    Secondary,
    Component,
}

/// The closed universe of resource types: six primary resources mined
/// from deposits, seven secondary resources refined from them, and four
/// ship components built from the secondaries.
#[derive(Clone, Copy, Debug, PartialEq, Eq, Structural, Hash)]
pub enum ResourceType {
    PRLightMetals,
    PRHeavyMetals,
    PRPreciousMetals,
    PRWater,
    PRCrudeOil,
    PRSilicon,
    SRKerosene,
    SRElectronics,
    SRPlastic,
    SRSuperconductors,
    SRHeatResistantAlloys,
    SRComposites,
    SRRadioactivePellets,
    CEngineNozzles,
    CMicroprocessors,
    CSensors,
    CFuelRods,
}

impl ResourceType {
    /// Position of the type in the fixed ordering used by ledgers.
    pub open spec fn type_index_spec(self) -> int {
        match self {
            ResourceType::PRLightMetals => 0,
            ResourceType::PRHeavyMetals => 1,
            ResourceType::PRPreciousMetals => 2,
            ResourceType::PRWater => 3,
            ResourceType::PRCrudeOil => 4,
            ResourceType::PRSilicon => 5,
            ResourceType::SRKerosene => 6,
            ResourceType::SRElectronics => 7,
            ResourceType::SRPlastic => 8,
            ResourceType::SRSuperconductors => 9,
            ResourceType::SRHeatResistantAlloys => 10,
            ResourceType::SRComposites => 11,
            ResourceType::SRRadioactivePellets => 12,
            ResourceType::CEngineNozzles => 13,
            ResourceType::CMicroprocessors => 14,
            ResourceType::CSensors => 15,
            ResourceType::CFuelRods => 16,
        }
    }

    /// Computes [`ResourceType::type_index_spec`].
    pub fn type_index(self) -> (i: usize)
        ensures
            i == self.type_index_spec(),
            i < 17,
    {
        match self {
            ResourceType::PRLightMetals => 0,
            ResourceType::PRHeavyMetals => 1,
            ResourceType::PRPreciousMetals => 2,
            ResourceType::PRWater => 3,
            ResourceType::PRCrudeOil => 4,
            ResourceType::PRSilicon => 5,
            ResourceType::SRKerosene => 6,
            ResourceType::SRElectronics => 7,
            ResourceType::SRPlastic => 8,
            ResourceType::SRSuperconductors => 9,
            ResourceType::SRHeatResistantAlloys => 10,
            ResourceType::SRComposites => 11,
            ResourceType::SRRadioactivePellets => 12,
            ResourceType::CEngineNozzles => 13,
            ResourceType::CMicroprocessors => 14,
            ResourceType::CSensors => 15,
            ResourceType::CFuelRods => 16,
        }
    }

    /// The type at a given position of the fixed ordering.
    pub open spec fn from_index_spec(i: int) -> ResourceType {
        if i == 0 {
            ResourceType::PRLightMetals
        } else if i == 1 {
            ResourceType::PRHeavyMetals
        } else if i == 2 {
            ResourceType::PRPreciousMetals
        } else if i == 3 {
            ResourceType::PRWater
        } else if i == 4 {
            ResourceType::PRCrudeOil
        } else if i == 5 {
            ResourceType::PRSilicon
        } else if i == 6 {
            ResourceType::SRKerosene
        } else if i == 7 {
            ResourceType::SRElectronics
        } else if i == 8 {
            ResourceType::SRPlastic
        } else if i == 9 {
            ResourceType::SRSuperconductors
        } else if i == 10 {
            ResourceType::SRHeatResistantAlloys
        } else if i == 11 {
            ResourceType::SRComposites
        } else if i == 12 {
            ResourceType::SRRadioactivePellets
        } else if i == 13 {
            ResourceType::CEngineNozzles
        } else if i == 14 {
            ResourceType::CMicroprocessors
        } else if i == 15 {
            ResourceType::CSensors
        } else {
            ResourceType::CFuelRods
        }
    }

    /// Computes [`ResourceType::from_index_spec`].
    pub fn from_index(i: usize) -> (r: ResourceType)
        requires
            i < 17,
        ensures
            r == ResourceType::from_index_spec(i as int),
            r.type_index_spec() == i,
    {
        if i == 0 {
            ResourceType::PRLightMetals
        } else if i == 1 {
            ResourceType::PRHeavyMetals
        } else if i == 2 {
            ResourceType::PRPreciousMetals
        } else if i == 3 {
            ResourceType::PRWater
        } else if i == 4 {
            ResourceType::PRCrudeOil
        } else if i == 5 {
            ResourceType::PRSilicon
        } else if i == 6 {
            ResourceType::SRKerosene
        } else if i == 7 {
            ResourceType::SRElectronics
        } else if i == 8 {
            ResourceType::SRPlastic
        } else if i == 9 {
            ResourceType::SRSuperconductors
        } else if i == 10 {
            ResourceType::SRHeatResistantAlloys
        } else if i == 11 {
            ResourceType::SRComposites
        } else if i == 12 {
            ResourceType::SRRadioactivePellets
        } else if i == 13 {
            ResourceType::CEngineNozzles
        } else if i == 14 {
            ResourceType::CMicroprocessors
        } else if i == 15 {
            ResourceType::CSensors
        } else {
            ResourceType::CFuelRods
        }
    }

    /// Grade of the resource, read off the fixed ordering.
    pub open spec fn grade_spec(self) -> ResourceGrade {
        if self.type_index_spec() < 6 {
            ResourceGrade::Primary
        } else if self.type_index_spec() < 13 {
            ResourceGrade::Secondary
        } else {
            ResourceGrade::Component
        }
    }

    /// Computes [`ResourceType::grade_spec`].
    pub fn grade(self) -> (g: ResourceGrade)
        ensures
            g == self.grade_spec(),
    {
        let i = self.type_index();
        if i < 6 {
            ResourceGrade::Primary
        } else if i < 13 {
            ResourceGrade::Secondary
        } else {
            ResourceGrade::Component
        }
    }

    /// Display name of the resource.
    pub open spec fn name_spec(self) -> Seq<char> {
        match self {
            ResourceType::PRLightMetals => "Light metals"@,
            ResourceType::PRHeavyMetals => "Heavy metals"@,
            ResourceType::PRPreciousMetals => "Precious metals"@,
            ResourceType::PRWater => "Water"@,
            ResourceType::PRCrudeOil => "Crude oil"@,
            ResourceType::PRSilicon => "Silicon"@,
            ResourceType::SRKerosene => "Kerosene"@,
            ResourceType::SRElectronics => "Electronics"@,
            ResourceType::SRPlastic => "Plastic"@,
            ResourceType::SRSuperconductors => "Superconductors"@,
            ResourceType::SRHeatResistantAlloys => "Heat resistant alloys"@,
            ResourceType::SRComposites => "Composites"@,
            ResourceType::SRRadioactivePellets => "Radioactive pellets"@,
            ResourceType::CEngineNozzles => "Engine nozzles"@,
            ResourceType::CMicroprocessors => "Microprocessors"@,
            ResourceType::CSensors => "Sensors"@,
            ResourceType::CFuelRods => "Fuel rods"@,
        }
    }

    /// Renders [`ResourceType::name_spec`].
    pub fn get_name(self) -> (r: String)
        ensures
            r@ == self.name_spec(),
    {
        let n: &str = match self {
            ResourceType::PRLightMetals => "Light metals",
            ResourceType::PRHeavyMetals => "Heavy metals",
            ResourceType::PRPreciousMetals => "Precious metals",
            ResourceType::PRWater => "Water",
            ResourceType::PRCrudeOil => "Crude oil",
            ResourceType::PRSilicon => "Silicon",
            ResourceType::SRKerosene => "Kerosene",
            ResourceType::SRElectronics => "Electronics",
            ResourceType::SRPlastic => "Plastic",
            ResourceType::SRSuperconductors => "Superconductors",
            ResourceType::SRHeatResistantAlloys => "Heat resistant alloys",
            ResourceType::SRComposites => "Composites",
            ResourceType::SRRadioactivePellets => "Radioactive pellets",
            ResourceType::CEngineNozzles => "Engine nozzles",
            ResourceType::CMicroprocessors => "Microprocessors",
            ResourceType::CSensors => "Sensors",
            ResourceType::CFuelRods => "Fuel rods",
        };
        String::from_str(n)
    }

    /// Display colour of the resource, by grade.
    pub fn get_menu_color(self) -> (c: MenuColor)
        ensures
            c == match self.grade_spec() {
                ResourceGrade::Primary => MenuColor::Gray,
                ResourceGrade::Secondary => MenuColor::LightYellow,
                ResourceGrade::Component => MenuColor::LightCyan,
            },
    {
        match self.grade() {
            ResourceGrade::Primary => MenuColor::Gray,
            ResourceGrade::Secondary => MenuColor::LightYellow,
            ResourceGrade::Component => MenuColor::LightCyan,
        }
    }
}

/// A signed change to the stock of one resource type.
#[derive(Clone, Copy, Debug, PartialEq, Eq, Structural)]
pub struct ResourceTransaction {
    pub resource_type: ResourceType,
    pub amount: i32,
}

impl ResourceTransaction {
    /// Builds a transaction.
    pub fn new(resource_type: ResourceType, amount: i32) -> (r: Self)
        ensures
            r.resource_type == resource_type,
            r.amount == amount,
    {
        ResourceTransaction { resource_type, amount }
    }

    /// The affected resource type.
    pub fn resource_type(&self) -> (r: ResourceType)
        ensures
            r == self.resource_type,
    {
        self.resource_type
    }

    /// The signed amount.
    pub fn amount(&self) -> (r: i32)
        ensures
            r == self.amount,
    {
        self.amount
    }
}

/// A fixed weighted distribution over the six primary resources,
/// generated once per colony and sampled by its mines.
#[derive(Clone, Debug, PartialEq, Eq)]
pub struct ResourceDeposit {
    /// One weight per primary resource, in type order.
    pub weights: Vec<u32>,
}

impl ResourceDeposit {
    /// Structural invariant: one weight per primary resource, with a
    /// positive total small enough for the sampler.
    pub open spec fn wf(self) -> bool {
        &&& self.weights@.len() == 6
        &&& 0 < weight_sum(self.weights@) <= 1_000_000
    }

    /// Weight of the primary resource at the given index.
    pub open spec fn weight_spec(self, i: int) -> u32 {
        self.weights@[i]
    }

    /// Builds a deposit from explicit weights over the six primary
    /// resources.
    pub fn with_weights(weights: Vec<u32>) -> (d: Self)
        requires
            weights@.len() == 6,
            0 < weight_sum(weights@) <= 1_000_000,
        ensures
            d.wf(),
            d.weights@ == weights@,
    {
        ResourceDeposit { weights }
    }

    /// Weight of the primary resource at the given index.
    pub fn weight(&self, i: usize) -> (w: u32)
        requires
            self.wf(),
            i < 6,
        ensures
            w == self.weight_spec(i as int),
    {
        self.weights[i]
    }

    /// Generates a deposit for a freshly colonised planet: every primary
    /// resource starts at weight 1, then 94 further points are dealt out
    /// one at a time through a fixed percentage bucketing (light metals
    /// 20%, heavy metals 10%, precious metals 5%, water 25%, crude oil
    /// 10%, silicon 30%).
    pub fn generate_for_planet() -> (d: Self)
        ensures
            d.wf(),
            weight_sum(d.weights@) == 100,
            forall|i: int| 0 <= i < 6 ==> d.weights@[i] >= 1,
    {
        let mut weights: Vec<u32> = Vec::new();
        weights.push(1);
        weights.push(1);
        weights.push(1);
        weights.push(1);
        weights.push(1);
        weights.push(1);
        proof {
            lemma_weight_sum_constant(weights@, 1);
        }
        let mut added: u32 = 0;
        while added < 94
            invariant
                added <= 94,
                weights@.len() == 6,
                weight_sum(weights@) == 6 + added,
                forall|i: int| 0 <= i < 6 ==> weights@[i] >= 1,
                forall|i: int| 0 <= i < 6 ==> weights@[i] <= 6 + added,
            decreases 94 - added,
        {
            let roll = rand_in_range(1, 100);
            let index: usize = if roll <= 20 {
                0
            } else if roll <= 30 {
                1
            } else if roll <= 35 {
                2
            } else if roll <= 60 {
                3
            } else if roll <= 70 {
                4
            } else {
                5
            };
            let cur = weights[index];
            proof {
                lemma_weight_sum_update(weights@, index as int, (cur + 1) as u32);
            }
            weights.set(index, cur + 1);
            added = added + 1;
        }
        ResourceDeposit { weights }
    }

    /// Samples one primary resource type, weighted by the deposit.  Only
    /// a type with a positive weight can come back.
    pub fn sample(&self) -> (r: ResourceType)
        requires
            self.wf(),
        ensures
            r.type_index_spec() < 6,
            self.weight_spec(r.type_index_spec()) > 0,
    {
        let i = weighted_pick(&self.weights);
        ResourceType::from_index(i)
    }
}

/// Updating one weight shifts the sum by the difference.
proof fn lemma_weight_sum_update(s: Seq<u32>, i: int, v: u32)
    requires
        0 <= i < s.len(),
    ensures
        weight_sum(s.update(i, v)) == weight_sum(s) - s[i] + v,
    decreases s.len(),
{
    if i == s.len() - 1 {
        assert(s.update(i, v).drop_last() =~= s.drop_last());
    } else {
        assert(s.update(i, v).drop_last() =~= s.drop_last().update(i, v));
        lemma_weight_sum_update(s.drop_last(), i, v);
    }
}

/// The sum of a constant sequence.
proof fn lemma_weight_sum_constant(s: Seq<u32>, c: u32)
    requires
        forall|i: int| 0 <= i < s.len() ==> s[i] == c,
    ensures
        weight_sum(s) == s.len() * c,
    decreases s.len(),
{
    if s.len() > 0 {
        lemma_weight_sum_constant(s.drop_last(), c);
        assert(s.len() * c == (s.len() - 1) * c + c) by (nonlinear_arith);
    }
}

} // verus!
