//! An in-process mediator: commands and queries are routed by the key of
//! their type to exactly one registered handler, through an erased carrier
//! that is checked again when it is turned back into a concrete value.

pub mod app;
pub mod configs;
pub mod handler;
pub mod hello;
pub mod mediator;
pub mod message;
pub mod models;
