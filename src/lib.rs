//! A small triangle-mesh renderer core: vertex wire layout, meshes, the combined
//! vertex buffer with its dirty-flag rebuild policy, the frame clock, and the
//! per-frame decisions of the renderer. GPU calls are made by the host program,
//! which performs the actions this library decides.

pub mod vertex;
pub mod mesh;
pub mod cube;
pub mod mesh_buffer;
pub mod frame;
