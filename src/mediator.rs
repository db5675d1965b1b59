//! The dispatch registry and the wrappers it stores.

pub mod erase;
pub mod errors;
pub mod laws;
pub mod registry;
pub mod table;
