//! Core of an interactive terminal launcher: a navigable list of
//! configured program entries, a key-routing state machine that drives
//! selection, launch and quit, a pure rendering model, and the decision
//! logic of the detached-process launch protocol. All terminal, file and
//! process I/O lives outside this crate; this crate holds the verified
//! data model and rules.

pub mod input;
pub mod launch;
pub mod loader;
pub mod program;
pub mod render;
pub mod state;
