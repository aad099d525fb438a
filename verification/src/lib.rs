//! Champion-select reconciliation engine for a locally hosted game-session
//! API: a phase state machine, an action resolver, and a fallback-candidate
//! planner, all driven by repeated polling of remote state. The surrounding
//! process (HTTP transport, credential discovery, rendering) feeds this
//! library plain values and carries out the mutation calls it plans.

pub mod actions;
pub mod catalog;
pub mod dispatcher;
pub mod executor;
pub mod gui;
pub mod phase;
pub mod plan;
pub mod planner;
pub mod text;
