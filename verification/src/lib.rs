//! Simulation core of a turn-based economy/space simulation: constructs with
//! capacity-bounded inventories and production modules, sectors with grouped
//! membership, a docking state machine, a throttled turn clock, and the
//! universe orchestrator that coordinates them.

pub mod construct;
pub mod construct_module;
pub mod external_commands;
pub mod messages;
pub mod my_little_universe;
pub mod products;
pub mod production;
pub mod sector;
pub mod station;
pub mod time;
pub mod universe_generator;
