//! Control plane of a macro recorder and player: the shared session record,
//! the decoding and dispatch of client messages, the plan of an execution
//! pass and the engine that turns sampled input into recorded steps.
//!
//! Everything that touches a device, a socket or a clock stays with the
//! caller; this crate decides what is to be done and proves what it decides.

pub mod json;
pub mod text;
pub mod models;
pub mod automation;
pub mod execution;
pub mod protocol;
pub mod dispatch;
pub mod laws;
pub mod recorder;
pub mod input;
pub mod wire;
