//! Input focus modes of the interface layer.

use vstd::prelude::*;

verus! {

/// What the interface is currently asking the player to select.
#[derive(Clone, Copy, Debug, PartialEq, Eq, Structural, Hash)]
pub enum Mode {
    Main,
    SelectingBodyInSystemTree,
    SelectingResearchField,
    SelectingResearch,
    SelectingColony,
    SelectingBuilding,
    SystemMapNavigation,
}

impl Default for Mode {
    /// The interface starts on the main view.
    fn default() -> (r: Self)
        ensures
            r == Mode::Main,
    {
        Mode::Main
    }
}

} // verus!
