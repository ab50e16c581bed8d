//! Building and factory types, their construction times and production
//! chains.

use crate::color::MenuColor;
use crate::resource::ResourceTransaction;
use crate::resource::ResourceType;
use vstd::prelude::*;

verus! {

/// Number of distinct building types ([`BuildingType`] with every factory
/// variant counted separately).
pub const BUILDING_TYPE_COUNT: usize = 14;

/// Number of factory kinds.
pub const FACTORY_TYPE_COUNT: usize = 11;

/// The closed set of factory kinds: seven refine primary resources into
/// secondary ones, four assemble secondary resources into components.
#[derive(Clone, Copy, Debug, PartialEq, Eq, Structural, Hash)]
pub enum FactoryType {
    ElectronicsFactory,
    KeroseneFactory,
    HeatResistantAlloyFactory,
    SuperconductorsFactory,
    PlasticsFactory,
    CompositesFactory,
    RadioactivePelletsFactory,
    EngineNozzlesFactory,
    MicroprocessorsFactory,
    SensorsFactory,
    FuelRodsFactory,
}

impl FactoryType {
    /// Position of the factory kind in the fixed ordering.
    pub open spec fn factory_index_spec(self) -> int {
        match self {
            FactoryType::ElectronicsFactory => 0,
            FactoryType::KeroseneFactory => 1,
            FactoryType::HeatResistantAlloyFactory => 2,
            FactoryType::SuperconductorsFactory => 3,
            FactoryType::PlasticsFactory => 4,
            FactoryType::CompositesFactory => 5,
            FactoryType::RadioactivePelletsFactory => 6,
            FactoryType::EngineNozzlesFactory => 7,
            FactoryType::MicroprocessorsFactory => 8,
            FactoryType::SensorsFactory => 9,
            FactoryType::FuelRodsFactory => 10,
        }
    }

    /// Computes [`FactoryType::factory_index_spec`].
    pub fn factory_index(self) -> (i: usize)
        ensures
            i == self.factory_index_spec(),
            i < 11,
    {
        match self {
            FactoryType::ElectronicsFactory => 0,
            FactoryType::KeroseneFactory => 1,
            FactoryType::HeatResistantAlloyFactory => 2,
            FactoryType::SuperconductorsFactory => 3,
            FactoryType::PlasticsFactory => 4,
            FactoryType::CompositesFactory => 5,
            FactoryType::RadioactivePelletsFactory => 6,
            FactoryType::EngineNozzlesFactory => 7,
            FactoryType::MicroprocessorsFactory => 8,
            FactoryType::SensorsFactory => 9,
            FactoryType::FuelRodsFactory => 10,
        }
    }

    /// The factory kind at a given position of the fixed ordering.
    pub open spec fn from_index_spec(i: int) -> FactoryType {
        if i == 0 {
            FactoryType::ElectronicsFactory
        } else if i == 1 {
            FactoryType::KeroseneFactory
        } else if i == 2 {
            FactoryType::HeatResistantAlloyFactory
        } else if i == 3 {
            FactoryType::SuperconductorsFactory
        } else if i == 4 {
            FactoryType::PlasticsFactory
        } else if i == 5 {
            FactoryType::CompositesFactory
        } else if i == 6 {
            FactoryType::RadioactivePelletsFactory
        } else if i == 7 {
            FactoryType::EngineNozzlesFactory
        } else if i == 8 {
            FactoryType::MicroprocessorsFactory
        } else if i == 9 {
            FactoryType::SensorsFactory
        } else {
            FactoryType::FuelRodsFactory
        }
    }

    /// Computes [`FactoryType::from_index_spec`].
    pub fn from_index(i: usize) -> (r: FactoryType)
        requires
            i < 11,
        ensures
            r == FactoryType::from_index_spec(i as int),
            r.factory_index_spec() == i,
    {
        if i == 0 {
            FactoryType::ElectronicsFactory
        } else if i == 1 {
            FactoryType::KeroseneFactory
        } else if i == 2 {
            FactoryType::HeatResistantAlloyFactory
        } else if i == 3 {
            FactoryType::SuperconductorsFactory
        } else if i == 4 {
            FactoryType::PlasticsFactory
        } else if i == 5 {
            FactoryType::CompositesFactory
        } else if i == 6 {
            FactoryType::RadioactivePelletsFactory
        } else if i == 7 {
            FactoryType::EngineNozzlesFactory
        } else if i == 8 {
            FactoryType::MicroprocessorsFactory
        } else if i == 9 {
            FactoryType::SensorsFactory
        } else {
            FactoryType::FuelRodsFactory
        }
    }

    /// Ticks needed to build this factory kind.
    pub open spec fn construction_time_spec(self) -> u32 {
        match self {
            FactoryType::CompositesFactory => 100,
            FactoryType::EngineNozzlesFactory => 130,
            FactoryType::MicroprocessorsFactory => 130,
            FactoryType::SensorsFactory => 130,
            FactoryType::FuelRodsFactory => 130,
            _ => 75,
        }
    }

    /// Computes [`FactoryType::construction_time_spec`].
    pub fn get_construction_time(&self) -> (t: u32)
        ensures
            t == self.construction_time_spec(),
            1 <= t <= 1000,
    {
        match self {
            FactoryType::CompositesFactory => 100,
            FactoryType::EngineNozzlesFactory => 130,
            FactoryType::MicroprocessorsFactory => 130,
            FactoryType::SensorsFactory => 130,
            FactoryType::FuelRodsFactory => 130,
            _ => 75,
        }
    }

    /// The fixed list of resource movements one production run of this
    /// factory kind performs: inputs as debits, output as a credit.
    pub open spec fn production_transactions_spec(self) -> Seq<ResourceTransaction> {
        match self {
            FactoryType::ElectronicsFactory => seq![
                ResourceTransaction { resource_type: ResourceType::PRPreciousMetals, amount: -1i32 },
                ResourceTransaction { resource_type: ResourceType::PRSilicon, amount: -5i32 },
                ResourceTransaction { resource_type: ResourceType::SRElectronics, amount: 3i32 },
            ],
            FactoryType::KeroseneFactory => seq![
                ResourceTransaction { resource_type: ResourceType::PRCrudeOil, amount: -10i32 },
                ResourceTransaction { resource_type: ResourceType::SRKerosene, amount: 5i32 },
            ],
            FactoryType::HeatResistantAlloyFactory => seq![
                ResourceTransaction { resource_type: ResourceType::PRHeavyMetals, amount: -3i32 },
                ResourceTransaction { resource_type: ResourceType::PRPreciousMetals, amount: -2i32 },
                ResourceTransaction {
                    resource_type: ResourceType::SRHeatResistantAlloys,
                    amount: 4i32,
                },
            ],
            FactoryType::SuperconductorsFactory => seq![
                ResourceTransaction { resource_type: ResourceType::PRPreciousMetals, amount: -4i32 },
                ResourceTransaction { resource_type: ResourceType::SRSuperconductors, amount: 1i32 },
            ],
            FactoryType::PlasticsFactory => seq![
                ResourceTransaction { resource_type: ResourceType::PRCrudeOil, amount: -7i32 },
                ResourceTransaction { resource_type: ResourceType::SRPlastic, amount: 2i32 },
            ],
            FactoryType::CompositesFactory => seq![
                ResourceTransaction { resource_type: ResourceType::SRPlastic, amount: -5i32 },
                ResourceTransaction { resource_type: ResourceType::PRLightMetals, amount: -5i32 },
                ResourceTransaction { resource_type: ResourceType::SRComposites, amount: 8i32 },
            ],
            FactoryType::RadioactivePelletsFactory => seq![
                ResourceTransaction { resource_type: ResourceType::PRHeavyMetals, amount: -2i32 },
                ResourceTransaction { resource_type: ResourceType::PRPreciousMetals, amount: -1i32 },
                ResourceTransaction {
                    resource_type: ResourceType::SRRadioactivePellets,
                    amount: 1i32,
                },
            ],
            FactoryType::EngineNozzlesFactory => seq![
                ResourceTransaction {
                    resource_type: ResourceType::SRHeatResistantAlloys,
                    amount: -15i32,
                },
                ResourceTransaction { resource_type: ResourceType::CEngineNozzles, amount: 1i32 },
            ],
            FactoryType::MicroprocessorsFactory => seq![
                ResourceTransaction { resource_type: ResourceType::SRSuperconductors, amount: -1i32 },
                ResourceTransaction { resource_type: ResourceType::SRElectronics, amount: -4i32 },
                ResourceTransaction { resource_type: ResourceType::CMicroprocessors, amount: 2i32 },
            ],
            FactoryType::SensorsFactory => seq![
                ResourceTransaction { resource_type: ResourceType::PRPreciousMetals, amount: -2i32 },
                ResourceTransaction { resource_type: ResourceType::SRElectronics, amount: -3i32 },
                ResourceTransaction { resource_type: ResourceType::CSensors, amount: 1i32 },
            ],
            FactoryType::FuelRodsFactory => seq![
                ResourceTransaction { resource_type: ResourceType::PRLightMetals, amount: -3i32 },
                ResourceTransaction {
                    resource_type: ResourceType::SRRadioactivePellets,
                    amount: -4i32,
                },
                ResourceTransaction { resource_type: ResourceType::CFuelRods, amount: 2i32 },
            ],
        }
    }

    /// Computes [`FactoryType::production_transactions_spec`].
    pub fn production_transactions(self) -> (r: Vec<ResourceTransaction>)
        ensures
            r@ == self.production_transactions_spec(),
    {
        let mut v: Vec<ResourceTransaction> = Vec::new();
        match self {
            FactoryType::ElectronicsFactory => {
                v.push(ResourceTransaction::new(ResourceType::PRPreciousMetals, -1));
                v.push(ResourceTransaction::new(ResourceType::PRSilicon, -5));
                v.push(ResourceTransaction::new(ResourceType::SRElectronics, 3));
            },
            FactoryType::KeroseneFactory => {
                v.push(ResourceTransaction::new(ResourceType::PRCrudeOil, -10));
                v.push(ResourceTransaction::new(ResourceType::SRKerosene, 5));
            },
            FactoryType::HeatResistantAlloyFactory => {
                v.push(ResourceTransaction::new(ResourceType::PRHeavyMetals, -3));
                v.push(ResourceTransaction::new(ResourceType::PRPreciousMetals, -2));
                v.push(ResourceTransaction::new(ResourceType::SRHeatResistantAlloys, 4));
            },
            FactoryType::SuperconductorsFactory => {
                v.push(ResourceTransaction::new(ResourceType::PRPreciousMetals, -4));
                v.push(ResourceTransaction::new(ResourceType::SRSuperconductors, 1));
            },
            FactoryType::PlasticsFactory => {
                v.push(ResourceTransaction::new(ResourceType::PRCrudeOil, -7));
                v.push(ResourceTransaction::new(ResourceType::SRPlastic, 2));
            },
            FactoryType::CompositesFactory => {
                v.push(ResourceTransaction::new(ResourceType::SRPlastic, -5));
                v.push(ResourceTransaction::new(ResourceType::PRLightMetals, -5));
                v.push(ResourceTransaction::new(ResourceType::SRComposites, 8));
            },
            FactoryType::RadioactivePelletsFactory => {
                v.push(ResourceTransaction::new(ResourceType::PRHeavyMetals, -2));
                v.push(ResourceTransaction::new(ResourceType::PRPreciousMetals, -1));
                v.push(ResourceTransaction::new(ResourceType::SRRadioactivePellets, 1));
            },
            FactoryType::EngineNozzlesFactory => {
                v.push(ResourceTransaction::new(ResourceType::SRHeatResistantAlloys, -15));
                v.push(ResourceTransaction::new(ResourceType::CEngineNozzles, 1));
            },
            FactoryType::MicroprocessorsFactory => {
                v.push(ResourceTransaction::new(ResourceType::SRSuperconductors, -1));
                v.push(ResourceTransaction::new(ResourceType::SRElectronics, -4));
                v.push(ResourceTransaction::new(ResourceType::CMicroprocessors, 2));
            },
            FactoryType::SensorsFactory => {
                v.push(ResourceTransaction::new(ResourceType::PRPreciousMetals, -2));
                v.push(ResourceTransaction::new(ResourceType::SRElectronics, -3));
                v.push(ResourceTransaction::new(ResourceType::CSensors, 1));
            },
            FactoryType::FuelRodsFactory => {
                v.push(ResourceTransaction::new(ResourceType::PRLightMetals, -3));
                v.push(ResourceTransaction::new(ResourceType::SRRadioactivePellets, -4));
                v.push(ResourceTransaction::new(ResourceType::CFuelRods, 2));
            },
        }
        proof {
            assert(v@ =~= self.production_transactions_spec());
        }
        v
    }

    /// Display name of the factory kind.
    pub open spec fn name_spec(self) -> Seq<char> {
        match self {
            FactoryType::ElectronicsFactory => "Electronics factory"@,
            FactoryType::KeroseneFactory => "Kerosene factory"@,
            FactoryType::HeatResistantAlloyFactory => "Heat resistant alloy factory"@,
            FactoryType::SuperconductorsFactory => "Superconductors factory"@,
            FactoryType::PlasticsFactory => "Plastics factory"@,
            FactoryType::CompositesFactory => "Composites factory"@,
            FactoryType::RadioactivePelletsFactory => "Radioactive pellets factory"@,
            FactoryType::EngineNozzlesFactory => "Engine nozzles factory"@,
            FactoryType::MicroprocessorsFactory => "Microprocessors factory"@,
            FactoryType::SensorsFactory => "Sensors factory"@,
            FactoryType::FuelRodsFactory => "Fuel rods factory"@,
        }
    }

    /// Renders [`FactoryType::name_spec`].
    pub fn get_name(&self) -> (r: String)
        ensures
            r@ == self.name_spec(),
    {
        let n: &str = match self {
            FactoryType::ElectronicsFactory => "Electronics factory",
            FactoryType::KeroseneFactory => "Kerosene factory",
            FactoryType::HeatResistantAlloyFactory => "Heat resistant alloy factory",
            FactoryType::SuperconductorsFactory => "Superconductors factory",
            FactoryType::PlasticsFactory => "Plastics factory",
            FactoryType::CompositesFactory => "Composites factory",
            FactoryType::RadioactivePelletsFactory => "Radioactive pellets factory",
            FactoryType::EngineNozzlesFactory => "Engine nozzles factory",
            FactoryType::MicroprocessorsFactory => "Microprocessors factory",
            FactoryType::SensorsFactory => "Sensors factory",
            FactoryType::FuelRodsFactory => "Fuel rods factory",
        };
        String::from_str(n)
    }
}

/// The closed set of building types a colony can raise.
#[derive(Clone, Copy, Debug, PartialEq, Eq, Structural, Hash)]
pub enum BuildingType {
    Mine,
    Factory(FactoryType),
    Spaceport,
    DryDock,
}

impl BuildingType {
    /// Position of the building type in the fixed ordering: the mine
    /// first, then the factories in factory order, then spaceport and dry
    /// dock.
    pub open spec fn type_index_spec(self) -> int {
        match self {
            BuildingType::Mine => 0,
            BuildingType::Factory(f) => 1 + f.factory_index_spec(),
            BuildingType::Spaceport => 12,
            BuildingType::DryDock => 13,
        }
    }

    /// Computes [`BuildingType::type_index_spec`].
    pub fn type_index(self) -> (i: usize)
        ensures
            i == self.type_index_spec(),
            i < 14,
    {
        match self {
            BuildingType::Mine => 0,
            BuildingType::Factory(f) => 1 + f.factory_index(),
            BuildingType::Spaceport => 12,
            BuildingType::DryDock => 13,
        }
    }

    /// The building type at a given position of the fixed ordering.
    pub open spec fn from_index_spec(i: int) -> BuildingType {
        if i == 0 {
            BuildingType::Mine
        } else if 1 <= i <= 11 {
            BuildingType::Factory(FactoryType::from_index_spec(i - 1))
        } else if i == 12 {
            BuildingType::Spaceport
        } else {
            BuildingType::DryDock
        }
    }

    /// Computes [`BuildingType::from_index_spec`].
    pub fn from_index(i: usize) -> (r: BuildingType)
        requires
            i < 14,
        ensures
            r == BuildingType::from_index_spec(i as int),
            r.type_index_spec() == i,
    {
        if i == 0 {
            BuildingType::Mine
        } else if i <= 11 {
            BuildingType::Factory(FactoryType::from_index(i - 1))
        } else if i == 12 {
            BuildingType::Spaceport
        } else {
            BuildingType::DryDock
        }
    }

    /// Ticks needed to build this building type.
    pub open spec fn construction_time_spec(self) -> u32 {
        match self {
            BuildingType::Mine => 100,
            BuildingType::Factory(ft) => ft.construction_time_spec(),
            BuildingType::Spaceport => 150,
            BuildingType::DryDock => 130,
        }
    }

    /// Computes [`BuildingType::construction_time_spec`].
    pub fn get_construction_time(&self) -> (t: u32)
        ensures
            t == self.construction_time_spec(),
            1 <= t <= 1000,
    {
        match self {
            BuildingType::Mine => 100,
            BuildingType::Factory(ft) => ft.get_construction_time(),
            BuildingType::Spaceport => 150,
            BuildingType::DryDock => 130,
        }
    }

    /// Whether one standing instance runs a production chain each
    /// resource step.
    pub open spec fn is_producing_resources_spec(self) -> bool {
        self is Factory
    }

    /// Computes [`BuildingType::is_producing_resources_spec`].
    pub fn is_producing_resources(&self) -> (r: bool)
        ensures
            r == self.is_producing_resources_spec(),
    {
        match self {
            BuildingType::Factory(_) => true,
            _ => false,
        }
    }

    /// Display name of the building type.
    pub open spec fn name_spec(self) -> Seq<char> {
        match self {
            BuildingType::Mine => "Mine"@,
            BuildingType::Factory(factory_type) => factory_type.name_spec(),
            BuildingType::Spaceport => "Spaceport"@,
            BuildingType::DryDock => "Dry dock"@,
        }
    }

    /// Renders [`BuildingType::name_spec`].
    pub fn get_name(&self) -> (r: String)
        ensures
            r@ == self.name_spec(),
    {
        match self {
            BuildingType::Mine => String::from_str("Mine"),
            BuildingType::Factory(factory_type) => factory_type.get_name(),
            BuildingType::Spaceport => String::from_str("Spaceport"),
            BuildingType::DryDock => String::from_str("Dry dock"),
        }
    }

    /// Display colour of the building type.
    pub fn get_menu_color(&self) -> (c: MenuColor)
        ensures
            c == match self {
                BuildingType::Mine => MenuColor::Gray,
                BuildingType::Factory(_) => MenuColor::LightRed,
                BuildingType::Spaceport => MenuColor::LightCyan,
                BuildingType::DryDock => MenuColor::LightMagenta,
            },
    {
        match self {
            BuildingType::Mine => MenuColor::Gray,
            BuildingType::Factory(_) => MenuColor::LightRed,
            BuildingType::Spaceport => MenuColor::LightCyan,
            BuildingType::DryDock => MenuColor::LightMagenta,
        }
    }
}

} // verus!
