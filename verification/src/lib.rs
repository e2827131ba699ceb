//! Verified core of a small windowed GPU renderer.
//!
//! The library models the render core as logic over plain values: surface
//! configuration negotiation and resizing, a pool of renderable objects with
//! per-frame scale updates, the per-frame command plan, and the window
//! lifecycle state machine. The unverifiable edges — the actual GPU device,
//! surface, and OS event loop — live outside the library and drive it with
//! plain values.

pub mod bytes;
pub mod config;
pub mod frame;
pub mod lifecycle;
pub mod pipeline;
pub mod pool;
