//! Core logic of a rotating, lit cube renderer: the frame counter and the
//! rotation angle it drives, the cube's fixed geometry, the attribute layout
//! of its vertex buffers, resolution of the shading program's uniforms, and
//! the state machine that turns a host image load into a single-poll wait.
pub mod frame;
pub mod geometry;
pub mod image_load;
pub mod layout;
pub mod setup;
pub mod uniforms;

