//! Core simulation library for a space-colonization strategy game.
//!
//! The library owns the simulation state and its rules: procedurally
//! generated star systems, a research tree with prerequisite gating, and
//! colony economies (construction, mining, production chains).  All
//! quantities are plain integers in fixed-point units, so every rule is
//! stated in a contract and machine-checked.  Randomness enters only
//! through the narrow wrappers in [`rng`]; everything downstream of a draw
//! is verified for every value the wrapper can return.

pub mod building;
pub mod building_manager;
pub mod color;
pub mod colony;
pub mod construction_process;
pub mod game_state;
pub mod math;
pub mod mode;
pub mod physics;
pub mod planet;
pub mod research;
pub mod research_manager;
pub mod resource;
pub mod resource_manager;
pub mod rng;
pub mod ship_module;
pub mod solar_system;
pub mod star;
pub mod tabs;
pub mod text;
pub mod utils;
