//! Supervision of child processes ("agents"): the records the manager keeps,
//! the decisions it makes on spawn, input, stop and exit, and the events it
//! hands to observers.

pub mod agent;
pub mod registry;
pub mod lifecycle;
pub mod wire;
