//! Core logic of a minimal real-time 3D rendering demo: an 11x11x11 grid of
//! rotating cubes drawn every frame through an immediate-submission renderer.
//!
//! The windowing system and the GPU backend are external collaborators; this
//! crate holds the decisions the demo makes around them: which on-disk shader
//! directory belongs to each backend kind, how a shader blob is prepared for
//! the backend compiler, how a native window handle is routed to the renderer,
//! the per-instance transform arithmetic of the cube grid, and the frame-loop
//! state machine (input sampling, resize detection, close semantics).

pub mod backend;
pub mod frame;
pub mod geometry;
pub mod grid;
pub mod platform;
pub mod shader;
pub mod transform;
