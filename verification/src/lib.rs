//! Runtime core of a minimal real-time application engine: a normalized
//! event model with bitmask categorization, an ordered stack of layers that
//! observe each frame's event queue most-recently-pushed first, and the
//! main-loop state machine that owns the queue, runs the close check, and
//! drives the render surface collaborator.

pub mod application;
pub mod events;
pub mod layers;
pub mod renderer;
pub mod window;
