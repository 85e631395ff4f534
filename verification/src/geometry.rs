//! Geometry as a parser hands it over.

use glam::Vec3;
use vstd::prelude::*;

verus! {

/// Vertex positions and a flat list of vertex indices, read three at a time
/// as triangles. Nothing is required of the indices: an index may point
/// outside `positions`, and their number need not be a multiple of three.
pub struct RawGeometry {
    pub positions: Vec<Vec3>,
    pub indices: Vec<u32>,
}

impl RawGeometry {
    /// The number of vertices.
    pub open spec fn vertex_count(&self) -> nat {
        self.positions@.len()
    }
}

} // verus!
