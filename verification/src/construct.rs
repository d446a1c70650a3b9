pub mod amount;
pub mod construct;
pub mod construct_position;
pub mod production_module;
