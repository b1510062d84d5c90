//! Runtime core of an embeddable game engine.
//!
//! The crate drives a fixed per-frame lifecycle across pluggable subsystem
//! modules, runs scripted entity behaviour through a host callback interface
//! (including suspendable scripted routines), and maintains a per-frame queue
//! of drawing commands that is resolved against streamed image assets and
//! grouped into batched instanced draws.
//!
//! All durations are measured in microseconds, and all drawing geometry is
//! held in fixed-point scalars with a resolution of 1/1000 of a unit, so that
//! the engine's rules can be stated and checked exactly.

pub use crate::engine::{Engine, Error as EngineError};
pub use crate::modules::{EngineModule, GameState, WindowOptions};

pub mod engine;
pub mod modules;
