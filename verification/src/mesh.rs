//! The assembled mesh: three per-vertex attribute lists of one length, and an
//! index list.

use crate::error::ObjError;
use crate::vector::components_of_all;
use glam::Vec3;
use vstd::prelude::*;

verus! {

/// How the index list of a mesh is read.
#[derive(Clone, Copy, Debug, PartialEq, Eq, Structural)]
pub enum PrimitiveTopology {
    PointList,
    LineList,
    LineStrip,
    /// Every three consecutive indices are one triangle.
    TriangleList,
    TriangleStrip,
}

/// What a mesh holds.
pub struct MeshView {
    pub topology: PrimitiveTopology,
    pub positions: Seq<Vec3>,
    pub normals: Seq<Vec3>,
    pub uvs: Seq<Vec3>,
    pub indices: Seq<u32>,
}

impl MeshView {
    /// The three attribute lists have one entry per vertex.
    pub open spec fn well_formed(self) -> bool {
        &&& self.normals.len() == self.positions.len()
        &&& self.uvs.len() == self.positions.len()
    }

    /// The two meshes hold the same numbers: the same topology and indices,
    /// and vectors with the same contents.
    pub open spec fn same_contents(self, other: MeshView) -> bool {
        &&& self.topology == other.topology
        &&& components_of_all(self.positions) == components_of_all(other.positions)
        &&& components_of_all(self.normals) == components_of_all(other.normals)
        &&& components_of_all(self.uvs) == components_of_all(other.uvs)
        &&& self.indices == other.indices
    }

    /// Every index refers to a vertex. Assembly does not ask for this; a
    /// renderer does.
    pub open spec fn renderable(self) -> bool {
        &&& self.well_formed()
        &&& forall|j: int| 0 <= j < self.indices.len() ==> self.indices[j] < self.positions.len()
    }
}

/// The mesh with no vertex and no index.
pub open spec fn empty_mesh(topology: PrimitiveTopology) -> MeshView {
    MeshView {
        topology,
        positions: Seq::empty(),
        normals: Seq::empty(),
        uvs: Seq::empty(),
        indices: Seq::empty(),
    }
}

/// The triangle-list mesh made of the given lists.
pub open spec fn assembled(
    positions: Seq<Vec3>,
    normals: Seq<Vec3>,
    uvs: Seq<Vec3>,
    indices: Seq<u32>,
) -> MeshView {
    MeshView { topology: PrimitiveTopology::TriangleList, positions, normals, uvs, indices }
}

/// An indexed mesh with a position, a normal and a texture coordinate for
/// each vertex.
#[derive(Debug)]
pub struct Mesh {
    topology: PrimitiveTopology,
    positions: Vec<Vec3>,
    normals: Vec<Vec3>,
    uvs: Vec<Vec3>,
    indices: Vec<u32>,
}

impl View for Mesh {
    type V = MeshView;

    closed spec fn view(&self) -> MeshView {
        MeshView {
            topology: self.topology,
            positions: self.positions@,
            normals: self.normals@,
            uvs: self.uvs@,
            indices: self.indices@,
        }
    }
}

impl Mesh {
    /// The three attribute lists have one entry per vertex.
    pub open spec fn well_formed(&self) -> bool {
        self@.well_formed()
    }

    /// A mesh with no vertex and no index.
    pub fn new(primitive_topology: PrimitiveTopology) -> (mesh: Mesh)
        ensures
            mesh@ == empty_mesh(primitive_topology),
            mesh.well_formed(),
    {
        Mesh {
            topology: primitive_topology,
            positions: Vec::new(),
            normals: Vec::new(),
            uvs: Vec::new(),
            indices: Vec::new(),
        }
    }

    /// A triangle-list mesh of the given attribute lists and index list.
    /// Fails, with the three lengths, if the attribute lists differ in length.
    pub fn assemble(
        positions: Vec<Vec3>,
        normals: Vec<Vec3>,
        uvs: Vec<Vec3>,
        indices: Vec<u32>,
    ) -> (r: Result<Mesh, ObjError>)
        ensures
            match r {
                Ok(mesh) => {
                    &&& normals@.len() == positions@.len()
                    &&& uvs@.len() == positions@.len()
                    &&& mesh@ == assembled(positions@, normals@, uvs@, indices@)
                    &&& mesh.well_formed()
                },
                Err(e) => {
                    &&& !(normals@.len() == positions@.len() && uvs@.len() == positions@.len())
                    &&& e == (ObjError::AttributeLengthMismatch {
                        positions: positions.len(),
                        normals: normals.len(),
                        uvs: uvs.len(),
                    })
                },
            },
    {
        let mut mesh = Mesh::new(PrimitiveTopology::TriangleList);
        match mesh.set_attributes(positions, normals, uvs) {
            Ok(()) => {
                mesh.set_indices(indices);
                Ok(mesh)
            },
            Err(e) => Err(e),
        }
    }

    /// Replaces the three attribute lists. Fails, with the three lengths and
    /// without a change to the mesh, if they differ in length.
    pub fn set_attributes(
        &mut self,
        positions: Vec<Vec3>,
        normals: Vec<Vec3>,
        uvs: Vec<Vec3>,
    ) -> (r: Result<(), ObjError>)
        ensures
            match r {
                Ok(()) => {
                    &&& normals@.len() == positions@.len()
                    &&& uvs@.len() == positions@.len()
                    &&& final(self)@ == (MeshView {
                        positions: positions@,
                        normals: normals@,
                        uvs: uvs@,
                        ..old(self)@
                    })
                    &&& final(self).well_formed()
                },
                Err(e) => {
                    &&& !(normals@.len() == positions@.len() && uvs@.len() == positions@.len())
                    &&& e == (ObjError::AttributeLengthMismatch {
                        positions: positions.len(),
                        normals: normals.len(),
                        uvs: uvs.len(),
                    })
                    &&& *final(self) == *old(self)
                },
            },
    {
        let count = positions.len();
        if normals.len() != count || uvs.len() != count {
            return Err(
                ObjError::AttributeLengthMismatch {
                    positions: count,
                    normals: normals.len(),
                    uvs: uvs.len(),
                },
            );
        }
        self.positions = positions;
        self.normals = normals;
        self.uvs = uvs;
        Ok(())
    }

    /// Replaces the index list. The indices are taken as they are: whether
    /// each refers to a vertex is not looked at.
    pub fn set_indices(&mut self, indices: Vec<u32>)
        ensures
            final(self)@ == (MeshView { indices: indices@, ..old(self)@ }),
            final(self).well_formed() == old(self).well_formed(),
    {
        self.indices = indices;
    }

    /// How the index list is read.
    pub fn primitive_topology(&self) -> (r: PrimitiveTopology)
        ensures
            r == self@.topology,
    {
        self.topology
    }

    /// The position of each vertex.
    pub fn positions(&self) -> (r: &Vec<Vec3>)
        ensures
            r@ == self@.positions,
    {
        &self.positions
    }

    /// The normal of each vertex.
    pub fn normals(&self) -> (r: &Vec<Vec3>)
        ensures
            r@ == self@.normals,
    {
        &self.normals
    }

    /// The texture coordinate of each vertex.
    pub fn uvs(&self) -> (r: &Vec<Vec3>)
        ensures
            r@ == self@.uvs,
    {
        &self.uvs
    }

    /// The index list.
    pub fn indices(&self) -> (r: &Vec<u32>)
        ensures
            r@ == self@.indices,
    {
        &self.indices
    }
}

/// Assembly keeps no state: from the same lists it gives the same mesh every
/// time, and from the lists of an assembled mesh it gives that mesh again.
pub proof fn lemma_assembly_repeatable(
    positions: Seq<Vec3>,
    normals: Seq<Vec3>,
    uvs: Seq<Vec3>,
    indices: Seq<u32>,
    first: MeshView,
    second: MeshView,
)
    requires
        first == assembled(positions, normals, uvs, indices),
        second == assembled(positions, normals, uvs, indices),
    ensures
        first == second,
        first.same_contents(second),
        assembled(first.positions, first.normals, first.uvs, first.indices) == first,
{
}

} // verus!
