//! Gridforge: the verified core of a pattern-based chip-music workstation.
//!
//! The library holds the project data model, the step sequencer, the
//! parameter and source vocabulary of the synth plugins, the payloads that
//! the user interface exchanges with the engine, and the decisions that the
//! commands make on them.

pub mod project;
pub mod engine;
pub mod dto;
pub mod plugin;
pub mod commands;
