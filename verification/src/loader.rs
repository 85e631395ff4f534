//! From parsed geometry to a mesh.

use crate::error::ObjError;
use crate::geometry::RawGeometry;
use crate::mesh::{Mesh, MeshView, PrimitiveTopology};
use crate::normals::{
    all_in_range, normals_for_positions, reports_first_out_of_range, synthesized_normals,
    uvs_for_positions, windows_readable,
};
use crate::vector::{components, components_of_all, zero_components};
use vstd::prelude::*;

verus! {

/// The attribute lists and the index list of `mesh` are those that belong to
/// `geometry`: its positions and indices as they are, the synthesized normal
/// of each vertex, and a zero texture coordinate for each vertex.
pub open spec fn holds_geometry(mesh: MeshView, geometry: &RawGeometry) -> bool {
    &&& mesh.positions == geometry.positions@
    &&& mesh.normals.len() == geometry.vertex_count()
    &&& components_of_all(mesh.normals) == synthesized_normals(
        components_of_all(geometry.positions@),
        geometry.indices@,
    )
    &&& mesh.uvs.len() == geometry.vertex_count()
    &&& forall|i: int|
        0 <= i < mesh.uvs.len() ==> components(#[trigger] mesh.uvs[i]) == zero_components()
    &&& mesh.indices == geometry.indices@
}

/// A copy of a list.
fn copied<T: Copy>(items: &Vec<T>) -> (copy: Vec<T>)
    ensures
        copy@ == items@,
{
    let mut copy: Vec<T> = Vec::new();
    let mut i: usize = 0;
    while i < items.len()
        invariant
            i <= items@.len(),
            copy@ == items@.take(i as int),
        decreases items@.len() - i,
    {
        copy.push(items[i]);
        assert(items@.take(i + 1) =~= items@.take(i as int).push(items@[i as int]));
        i += 1;
    }
    assert(items@.take(i as int) =~= items@);
    copy
}

/// Gives `mesh` the indices of `obj`, in their order.
pub fn set_mesh_indices(mesh: &mut Mesh, obj: &RawGeometry)
    ensures
        final(mesh)@ == (MeshView { indices: obj.indices@, ..old(mesh)@ }),
{
    mesh.set_indices(copied(&obj.indices));
}

/// Fills `mesh` from `obj`: positions, synthesized normals, zero texture
/// coordinates, indices. The topology of `mesh` stays. Fails, and leaves
/// `mesh` as it was, if a window of the index list cannot be read.
pub fn load_obj_pnt(obj: &RawGeometry, mesh: &mut Mesh) -> (r: Result<(), ObjError>)
    ensures
        match r {
            Ok(()) => {
                &&& windows_readable(obj.indices@, obj.vertex_count())
                &&& holds_geometry(final(mesh)@, obj)
                &&& final(mesh)@.topology == old(mesh)@.topology
                &&& final(mesh).well_formed()
            },
            Err(e) => {
                &&& !windows_readable(obj.indices@, obj.vertex_count())
                &&& reports_first_out_of_range(e, obj.indices@, obj.vertex_count())
                &&& *final(mesh) == *old(mesh)
            },
        },
{
    let positions = copied(&obj.positions);
    let normals = match normals_for_positions(obj) {
        Ok(normals) => normals,
        Err(e) => {
            return Err(e);
        },
    };
    let uvs = uvs_for_positions(obj);
    match mesh.set_attributes(positions, normals, uvs) {
        Ok(()) => {
            set_mesh_indices(mesh, obj);
            Ok(())
        },
        Err(e) => Err(e),
    }
}

/// What a load owes for the outcome of parsing. If parsing failed, its
/// failure. Else a triangle-list mesh that holds the geometry if every window
/// of its index list can be read, and else the first index that refers to no
/// vertex.
pub open spec fn load_outcome(
    parsed: Result<RawGeometry, String>,
    r: Result<Mesh, ObjError>,
) -> bool {
    match parsed {
        Ok(geometry) => match r {
            Ok(mesh) => {
                &&& windows_readable(geometry.indices@, geometry.vertex_count())
                &&& holds_geometry(mesh@, &geometry)
                &&& mesh@.topology == PrimitiveTopology::TriangleList
            },
            Err(e) => {
                &&& !windows_readable(geometry.indices@, geometry.vertex_count())
                &&& reports_first_out_of_range(e, geometry.indices@, geometry.vertex_count())
            },
        },
        Err(description) => r == Err::<Mesh, ObjError>(ObjError::Gltf(description)),
    }
}

/// The mesh of parsed geometry, or the reason why there is none.
pub fn load_obj(parsed: Result<RawGeometry, String>) -> (r: Result<Mesh, ObjError>)
    ensures
        load_outcome(parsed, r),
        r matches Ok(mesh) ==> mesh.well_formed(),
{
    match parsed {
        Ok(geometry) => {
            let mut mesh = Mesh::new(PrimitiveTopology::TriangleList);
            match load_obj_pnt(&geometry, &mut mesh) {
                Ok(()) => Ok(mesh),
                Err(e) => Err(e),
            }
        },
        Err(description) => Err(ObjError::Gltf(description)),
    }
}

/// Loads meshes from OBJ documents.
pub struct ObjLoader;

impl Default for ObjLoader {
    fn default() -> (loader: ObjLoader)
        ensures
            loader == ObjLoader,
    {
        ObjLoader
    }
}

impl ObjLoader {
    /// The mesh of parsed geometry, or the reason why there is none.
    pub fn load(&self, parsed: Result<RawGeometry, String>) -> (r: Result<Mesh, ObjError>)
        ensures
            load_outcome(parsed, r),
            r matches Ok(mesh) ==> mesh.well_formed(),
    {
        load_obj(parsed)
    }

    /// The file extensions of the documents that this loader reads.
    pub fn extensions(&self) -> (r: Vec<&'static str>)
        ensures
            r@.len() == 1,
            r@[0]@ == "obj"@,
    {
        let mut r: Vec<&'static str> = Vec::new();
        r.push("obj");
        r
    }
}

/// A mesh that holds geometry of N vertices and M indices has N positions, N
/// normals, N texture coordinates and M indices. If every index refers to a
/// vertex, so does every index of the mesh.
pub proof fn lemma_mesh_lengths(mesh: MeshView, geometry: &RawGeometry)
    requires
        holds_geometry(mesh, geometry),
    ensures
        mesh.positions.len() == geometry.vertex_count(),
        mesh.normals.len() == geometry.vertex_count(),
        mesh.uvs.len() == geometry.vertex_count(),
        mesh.indices.len() == geometry.indices@.len(),
        mesh.well_formed(),
        all_in_range(geometry.indices@, geometry.vertex_count()) ==> mesh.renderable(),
{
}

/// Geometry whose indices all refer to vertices always loads.
pub proof fn lemma_in_range_loads(geometry: RawGeometry, r: Result<Mesh, ObjError>)
    requires
        all_in_range(geometry.indices@, geometry.vertex_count()),
        load_outcome(Ok(geometry), r),
    ensures
        r is Ok,
{
}

/// A load has no hidden state: two loads of the same parsed input both
/// succeed or both fail, with the same error or with meshes that hold the same
/// numbers.
pub proof fn lemma_load_deterministic(
    parsed: Result<RawGeometry, String>,
    first: Result<Mesh, ObjError>,
    second: Result<Mesh, ObjError>,
)
    requires
        load_outcome(parsed, first),
        load_outcome(parsed, second),
    ensures
        first is Ok <==> second is Ok,
        first is Err ==> first->Err_0 == second->Err_0,
        first is Ok ==> first->Ok_0@.same_contents(second->Ok_0@),
{
    if first is Ok {
        let a = first->Ok_0@;
        let b = second->Ok_0@;
        assert(components_of_all(a.uvs) =~= components_of_all(b.uvs));
    }
}

} // verus!
