//! Verified core of a deferred-shading render engine.
//!
//! The engine's decision logic — frame-slot rotation and fence discipline,
//! swapchain negotiation, device and memory-type selection, the deferred
//! render-graph structure, light accumulation, and mesh upload planning —
//! lives here with machine-checked contracts. The graphics driver calls
//! themselves are performed by an unverified shell that consults this
//! library for every decision and reports each outcome back.

pub mod commands;
pub mod device;
pub mod engine;
pub mod error;
pub mod frame;
pub mod lighting;
pub mod mesh;
pub mod pipeline;
pub mod render_graph;
pub mod swapchain;
pub mod sync;
pub mod utils;
pub mod validation;
