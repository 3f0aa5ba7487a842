//! Core of a headless harness for driving an interactive GUI application:
//! a verified event translator, a frame-driving state machine that keeps
//! modifier and pointer state consistent across frames, an append-only
//! texture-delta ledger, and a render planner that consumes the ledger.
//!
//! The GUI framework, the accessibility query engine and the GPU backend are
//! external collaborators: a thin unverified shell converts between their
//! types and the plain values this library works on.

pub mod events;
pub mod translate;
pub mod harness;
pub mod render;
