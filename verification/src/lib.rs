//! Release workflow engine.
//!
//! The core of a release tool: a hook batch splitter and execution planner,
//! a JSON-serializable pipeline context threaded through release phases, and
//! the phase orchestrator that sequences the seven phases of a release with
//! user hooks at every boundary. All decision logic is verified; external
//! processes (git, shells, release tooling) are driven by a thin unverified
//! shell through explicit action requests.

pub mod clock;
pub mod config;
pub mod detect;
pub mod deps;
pub mod ecosystem;
pub mod git;
pub mod hooks;
pub mod notes;
pub mod observability;
pub mod pipeline;
pub mod ship;
pub mod stats;
pub mod preflight;
pub mod text;
pub mod version;
