//! Turns raw triangle geometry (a list of vertex positions and a flat list of
//! vertex indices) into an indexed triangle mesh with synthesized per-vertex
//! normals and placeholder texture coordinates.
//!
//! Floating-point arithmetic is left to `glam`; this crate carries `glam::Vec3`
//! values as opaque data and proves the structure of the computation around
//! them: which vectors are combined, in which order, and where the results go.

pub mod error;
pub mod geometry;
pub mod loader;
pub mod mesh;
pub mod normals;
pub mod vector;

pub use crate::error::ObjError;
pub use crate::geometry::RawGeometry;
pub use crate::loader::ObjLoader;
pub use crate::mesh::{Mesh, PrimitiveTopology};
