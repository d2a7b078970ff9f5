//! Interaction-state layer for a node-graph connector widget set (plugs,
//! ports, cables) driven by an immediate-mode GUI frame loop.
//!
//! Immediate-mode UIs rebuild their widget tree every frame, so continuity —
//! which plug is being dragged, which port is the current drop target, whether
//! a connection was just completed — must be reconstructed from per-frame
//! inputs plus a small piece of state persisted between frames. This crate
//! holds that state ([`state::State`]) and the per-frame protocol that port
//! and plug rendering follow against it ([`port::Port::ui`],
//! [`plug::Plug::ui`]). Drawing itself (shapes, strokes, hit-testing
//! geometry) is the host's business: the host hands in plain values
//! (rectangles, drag deltas, hover flags) and consumes plain values back.

pub mod cable;
pub mod event;
pub mod geom;
pub mod laws;
pub mod plug;
pub mod port;
pub mod state;
pub mod store;
