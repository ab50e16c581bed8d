//! The top-level UI tabs the simulation exposes.

use vstd::prelude::*;

verus! {

/// The top-level views of the game.
#[derive(Clone, Copy, Debug, PartialEq, Eq, Structural)]
pub enum Tabs {
    SystemView,
    Research,
    Planets,
}

impl Tabs {
    /// Display title of the tab.
    pub fn title(&self) -> (r: String)
        ensures
            r@ == match self {
                Tabs::SystemView => "System View"@,
                Tabs::Research => "Research"@,
                Tabs::Planets => "Colonized planets"@,
            },
    {
        match self {
            Tabs::SystemView => String::from_str("System View"),
            Tabs::Research => String::from_str("Research"),
            Tabs::Planets => String::from_str("Colonized planets"),
        }
    }
}

} // verus!
