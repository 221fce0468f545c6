//! Frame engine of a voxel landscape renderer.
//!
//! The crate holds the decisions of the renderer: the cube geometry tables,
//! the checks a resource set has to pass before it is uploaded, the texture
//! decoding, and the per-frame state machine that reacts to what the
//! presentation backend reports. Talking to the GPU and to the window system
//! is left to the program that drives the engine.

pub mod commands;
pub mod device;
pub mod geometry;
pub mod laws;
pub mod renderer;
pub mod resources;
pub mod surface;
pub mod texture;
pub mod timing;
pub mod window;
