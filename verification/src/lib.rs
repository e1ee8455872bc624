//! Coordination core for a single motorized door lock.
//!
//! The library resolves concurrent lock/unlock instructions from a button, a
//! proximity sensor and a network client into one safe actuation at a time:
//! a pure state machine decides the action, an admission-control arbiter
//! grants at most one in-flight instruction, and the actuator drives the
//! stepper motor through a verified timing profile.

pub mod lock;
pub mod routes;
pub mod rpi;
pub mod sensors;
