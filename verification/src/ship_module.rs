//! Ship module types and the designer's catalog of engines.

use crate::color::MenuColor;
use vstd::prelude::*;

verus! {

/// One named trait of a ship module.
#[derive(Clone, Debug)]
pub struct ModuleTrait {
    pub name: String,
}

/// The closed set of ship module slots.
#[derive(Clone, Copy, Debug, PartialEq, Eq, Structural)]
pub enum ShipModuleType {
    SublightThruster,
}

impl ShipModuleType {
    /// Display name of the slot.
    pub fn get_name(&self) -> (r: String)
        ensures
            r@ == "Sublight Thruster"@,
    {
        String::from_str("Sublight Thruster")
    }

    /// Display colour of the slot.
    pub fn get_menu_color(&self) -> (c: MenuColor)
        ensures
            c == MenuColor::Indexed(75),
    {
        MenuColor::Indexed(75)
    }
}

/// A sublight engine design: its name, traits, and whether research has
/// unlocked it.
#[derive(Clone, Debug)]
pub struct SublightEngine {
    pub name: String,
    pub traits: Vec<ModuleTrait>,
    pub is_unlocked: bool,
}

impl SublightEngine {
    /// Builds an engine design record.
    pub fn new(name: String, traits: Vec<ModuleTrait>, is_unlocked: bool) -> (r: Self)
        ensures
            r.name == name,
            r.traits == traits,
            r.is_unlocked == is_unlocked,
    {
        SublightEngine { name, traits, is_unlocked }
    }

    /// The traits of the design.
    pub fn get_traits(&self) -> (r: &Vec<ModuleTrait>)
        ensures
            r == &self.traits,
    {
        &self.traits
    }
}

/// The catalog of ship module designs, handed to the library at startup.
pub struct ShipModuleManager {
    pub sublight_engines: Vec<SublightEngine>,
}

impl ShipModuleManager {
    /// Builds the catalog from parsed engine records.
    pub fn new(sublight_engines: Vec<SublightEngine>) -> (r: Self)
        ensures
            r.sublight_engines == sublight_engines,
    {
        ShipModuleManager { sublight_engines }
    }

    /// Every module slot the designer offers.
    pub fn get_ship_module_types(&self) -> (r: Vec<ShipModuleType>)
        ensures
            r@.len() == 1,
            r@[0] == ShipModuleType::SublightThruster,
    {
        let mut v: Vec<ShipModuleType> = Vec::new();
        v.push(ShipModuleType::SublightThruster);
        v
    }

    /// The slot with the given display name, if any.
    pub fn get_ship_module_type_by_name(&self, name: &String) -> (r: Option<ShipModuleType>)
        ensures
            r == if name@ == "Sublight Thruster"@ {
                Some(ShipModuleType::SublightThruster)
            } else {
                Option::<ShipModuleType>::None
            },
    {
        let thruster = String::from_str("Sublight Thruster");
        if *name == thruster {
            Some(ShipModuleType::SublightThruster)
        } else {
            None
        }
    }

    /// The engine designs available for a slot.
    pub fn get_ship_modules_by_type(&self, module_type: ShipModuleType) -> (r: &Vec<
        SublightEngine,
    >)
        ensures
            r == &self.sublight_engines,
    {
        match module_type {
            ShipModuleType::SublightThruster => &self.sublight_engines,
        }
    }
}

} // verus!
