//! Verified core of a multi-device identity provisioning saga.
//!
//! The library drives a per-device rollout (connect, create identity,
//! upload a biometric artifact), records backend-side provisioning state,
//! and compensates (device deletes, backend failure finalization) when the
//! saga aborts.  All network transport lives outside the library; the
//! state machines here decide every step, and those decisions are
//! verified.

pub mod action;
pub mod artifact;
pub mod backend;
pub mod device;
pub mod devtime;
pub mod digest;
pub mod employee;
pub mod json;
pub mod recreate;
pub mod registry;
pub mod saga;
pub mod text;
