//! Render-state core of a single-quad renderer.
//!
//! The crate holds the decisions of a small GPU renderer as verified code:
//! the geometry table and its memory layout, the camera record and the byte
//! image of its uniform, the surface configuration, and the state manager
//! that orchestrates resize, per-frame drawing and shader hot-reload. The
//! code that talks to the window system and to the GPU lives outside and is
//! driven by the actions that the functions here return.

pub mod bytes;
pub mod camera;
pub mod error;
pub mod ieee;
pub mod pipeline;
pub mod shader;
pub mod state;
pub mod surface;
pub mod vertex;

pub use crate::state::State;
pub use crate::vertex::Vertex;
