//! Triangle meshes for a fixed catalogue of parametric surfaces.
//!
//! The library decides the topology of each mesh: which lattice samples
//! become vertices, in which order, and how they are joined into triangles.
//! Every index buffer it returns names only vertices that exist and holds
//! whole triangles, so it can be handed to a 16-bit indexed draw call as is.
pub mod mesh;
pub mod grid;
pub mod surf_rot;
pub mod cube;
pub mod shape;
pub mod cli;
