//! Presentation core of a cross-platform interactive engine.
//!
//! The crate owns the lifecycle/orchestration layer around a native window
//! and its GPU presentation surface: a platform-agnostic state machine for
//! window/graphics lifecycle, an event dispatcher, the per-iteration logic
//! of the cooperative main loop, and the shutdown coordination between the
//! presentation loop and the simulation/compute loop.  The platform glue
//! (the OS event source, the GPU backend, signal handlers) lives outside
//! and drives these state machines with plain values.

pub mod args;
pub mod assets;
pub mod engine_name;
pub mod channel;
pub mod dispatcher;
pub mod emscripten;
pub mod entity;
pub mod exit;
pub mod graphics;
pub mod i18n;
pub mod lifecycle;
pub mod physics;
pub mod resources;
pub mod scheduler;
pub mod strings;
pub mod threads;

pub use exit::ExitFlag;
