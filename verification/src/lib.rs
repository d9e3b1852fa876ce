//! Decision logic of a tick-driven air-traffic client: heading arithmetic,
//! the snapshot model, the per-level steering policies and the session
//! state machine that turns inbound frames into outbound actions.

pub mod command;
pub mod endpoints;
pub mod guarantees;
pub mod heading;
pub mod model;
pub mod policy;
pub mod protocol;
pub mod wire;
