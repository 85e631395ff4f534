//! The failures of a load.

use vstd::prelude::*;

verus! {

/// Why a load produced no mesh.
#[derive(Debug)]
pub enum ObjError {
    /// The input is not a valid OBJ document. The field holds the parser's
    /// description of what it met.
    Gltf(String),
    /// The entry at `position` of the index list refers to vertex `index`,
    /// but there are only `vertex_count` vertices.
    IndexOutOfRange { position: usize, index: u32, vertex_count: usize },
    /// The three per-vertex attribute lists differ in length.
    AttributeLengthMismatch { positions: usize, normals: usize, uvs: usize },
}

} // verus!
