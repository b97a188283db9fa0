//! The plain logic behind driving an entity-component world from a script:
//! a table from script-visible names to host handles, the reading of a
//! script's request for a new system, and the health component's arithmetic
//! and text.

pub mod decimal;
pub mod health;
pub mod registry;
pub mod script_system;
