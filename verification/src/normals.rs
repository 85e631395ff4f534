//! Per-vertex normals from a flat index list, and the placeholder texture
//! coordinates that go with them.
//!
//! A window of three consecutive indices slides over the index list one entry
//! at a time. Each window gives one unit face normal, which is added to the
//! normal of the window's first vertex only. The sums are not scaled back to
//! unit length.

use crate::error::ObjError;
use crate::geometry::RawGeometry;
use crate::vector::{
    accumulate, components, components_of_all, cross, cross_of, difference, difference_of,
    normalize, normalized, sum_of, zero, zero_components,
};
use glam::Vec3;
use vstd::prelude::*;

verus! {

/// The number of windows of three consecutive entries in a list of `len`
/// entries.
pub open spec fn window_count(len: nat) -> nat {
    if len < 3 {
        0
    } else {
        (len - 2) as nat
    }
}

/// The unit normal of the face with corners `p0`, `p1`, `p2`: the normalized
/// cross product of the edges `p0 - p1` and `p2 - p1`.
pub open spec fn face_normal_of(p0: Seq<u32>, p1: Seq<u32>, p2: Seq<u32>) -> Seq<u32> {
    normalized(cross_of(difference_of(p0, p1), difference_of(p2, p1)))
}

/// The face normal of the window that starts at entry `w` of `indices`.
pub open spec fn window_normal(points: Seq<Seq<u32>>, indices: Seq<u32>, w: int) -> Seq<u32> {
    face_normal_of(
        points[indices[w] as int],
        points[indices[w + 1] as int],
        points[indices[w + 2] as int],
    )
}

/// The normal of `vertex` after the first `windows` windows: starting from
/// zero, the face normal of each window whose first index is `vertex` is
/// added, in the order of the windows.
pub open spec fn accumulated(
    points: Seq<Seq<u32>>,
    indices: Seq<u32>,
    windows: nat,
    vertex: int,
) -> Seq<u32>
    decreases windows,
{
    if windows == 0 {
        zero_components()
    } else {
        let w = windows - 1;
        let before = accumulated(points, indices, w as nat, vertex);
        if indices[w] as int == vertex {
            sum_of(before, window_normal(points, indices, w))
        } else {
            before
        }
    }
}

/// The normals of all vertices after all windows.
pub open spec fn synthesized_normals(points: Seq<Seq<u32>>, indices: Seq<u32>) -> Seq<Seq<u32>> {
    Seq::new(
        points.len(),
        |v: int| accumulated(points, indices, window_count(indices.len()), v),
    )
}

/// Every index refers to one of `vertex_count` vertices.
pub open spec fn all_in_range(indices: Seq<u32>, vertex_count: nat) -> bool {
    forall|j: int| 0 <= j < indices.len() ==> indices[j] < vertex_count
}

/// Entry `j` is the first one that refers to no vertex.
pub open spec fn first_out_of_range(indices: Seq<u32>, vertex_count: nat, j: int) -> bool {
    &&& 0 <= j < indices.len()
    &&& indices[j] >= vertex_count
    &&& forall|k: int| 0 <= k < j ==> indices[k] < vertex_count
}

/// Every window can be read: there is no window, or every index is in range.
/// (With three entries or more, every entry lies in some window.)
pub open spec fn windows_readable(indices: Seq<u32>, vertex_count: nat) -> bool {
    indices.len() < 3 || all_in_range(indices, vertex_count)
}

/// The error names the first entry that refers to no vertex, the index found
/// there, and the number of vertices.
pub open spec fn reports_first_out_of_range(
    e: ObjError,
    indices: Seq<u32>,
    vertex_count: nat,
) -> bool {
    match e {
        ObjError::IndexOutOfRange { position, index, vertex_count: count } => {
            &&& first_out_of_range(indices, vertex_count, position as int)
            &&& index == indices[position as int]
            &&& count == vertex_count
        },
        _ => false,
    }
}

/// The unit normal of the face with corners `v0`, `v1`, `v2`.
pub fn face_normal(v0: Vec3, v1: Vec3, v2: Vec3) -> (r: Vec3)
    ensures
        components(r) == face_normal_of(components(v0), components(v1), components(v2)),
{
    normalize(cross(difference(v0, v1), difference(v2, v1)))
}

/// `count` zero vectors.
fn zero_vectors(count: usize) -> (zeros: Vec<Vec3>)
    ensures
        zeros@.len() == count,
        forall|i: int|
            0 <= i < zeros@.len() ==> components(#[trigger] zeros@[i]) == zero_components(),
{
    let mut zeros: Vec<Vec3> = Vec::new();
    let mut i: usize = 0;
    while i < count
        invariant
            i <= count,
            zeros@.len() == i,
            forall|k: int| 0 <= k < i ==> components(#[trigger] zeros@[k]) == zero_components(),
        decreases count - i,
    {
        zeros.push(zero());
        i += 1;
    }
    zeros
}

/// The placeholder texture coordinates: one zero vector per vertex, whatever
/// the positions are.
pub fn uvs_for_positions(positions: &RawGeometry) -> (uvs: Vec<Vec3>)
    ensures
        uvs@.len() == positions.vertex_count(),
        forall|i: int| 0 <= i < uvs@.len() ==> components(#[trigger] uvs@[i]) == zero_components(),
{
    zero_vectors(positions.positions.len())
}

/// What normal synthesis owes for `positions`: a normal for every vertex if
/// every window can be read, and else the first index that refers to no
/// vertex.
pub open spec fn synthesis_outcome(
    positions: &RawGeometry,
    r: Result<Vec<Vec3>, ObjError>,
) -> bool {
    match r {
        Ok(normals) => {
            &&& windows_readable(positions.indices@, positions.vertex_count())
            &&& normals@.len() == positions.vertex_count()
            &&& components_of_all(normals@) == synthesized_normals(
                components_of_all(positions.positions@),
                positions.indices@,
            )
        },
        Err(e) => {
            &&& !windows_readable(positions.indices@, positions.vertex_count())
            &&& reports_first_out_of_range(e, positions.indices@, positions.vertex_count())
        },
    }
}

/// The synthesized normal of every vertex, or the first index that refers to
/// no vertex.
pub fn normals_for_positions(positions: &RawGeometry) -> (r: Result<Vec<Vec3>, ObjError>)
    ensures
        synthesis_outcome(positions, r),
{
    let vertices = &positions.positions;
    let indexes = &positions.indices;
    let count = vertices.len();
    let ghost points = components_of_all(vertices@);
    let mut normals = zero_vectors(count);
    let len = indexes.len();
    if len < 3 {
        assert(components_of_all(normals@) =~= synthesized_normals(points, indexes@));
        return Ok(normals);
    }
    let mut w: usize = 0;
    while w < len - 2
        invariant
            vertices@ == positions.positions@,
            indexes@ == positions.indices@,
            len == indexes@.len(),
            len >= 3,
            count == vertices@.len(),
            points == components_of_all(vertices@),
            w <= len - 2,
            normals@.len() == count,
            w > 0 ==> forall|j: int| 0 <= j < w + 2 ==> indexes@[j] < count,
            forall|v: int|
                0 <= v < count ==> components(#[trigger] normals@[v]) == accumulated(
                    points,
                    indexes@,
                    w as nat,
                    v,
                ),
        decreases len - w,
    {
        let i0 = indexes[w] as usize;
        if i0 >= count {
            return Err(
                ObjError::IndexOutOfRange { position: w, index: indexes[w], vertex_count: count },
            );
        }
        let i1 = indexes[w + 1] as usize;
        if i1 >= count {
            return Err(
                ObjError::IndexOutOfRange {
                    position: w + 1,
                    index: indexes[w + 1],
                    vertex_count: count,
                },
            );
        }
        let i2 = indexes[w + 2] as usize;
        if i2 >= count {
            return Err(
                ObjError::IndexOutOfRange {
                    position: w + 2,
                    index: indexes[w + 2],
                    vertex_count: count,
                },
            );
        }
        let normal = face_normal(vertices[i0], vertices[i1], vertices[i2]);
        let mut sum = normals[i0];
        accumulate(&mut sum, normal);
        normals.set(i0, sum);
        w += 1;
    }
    assert(components_of_all(normals@) =~= synthesized_normals(points, indexes@));
    Ok(normals)
}

/// With fewer than three indices there is no window, and every synthesized
/// normal is zero.
pub proof fn lemma_no_window_zero_normals(points: Seq<Seq<u32>>, indices: Seq<u32>)
    requires
        indices.len() < 3,
    ensures
        synthesized_normals(points, indices).len() == points.len(),
        forall|v: int|
            0 <= v < points.len() ==> #[trigger] synthesized_normals(points, indices)[v]
                == zero_components(),
{
}

/// A vertex that is the first index of no window keeps the zero normal.
pub proof fn lemma_untouched_vertex_zero_normal(
    points: Seq<Seq<u32>>,
    indices: Seq<u32>,
    windows: nat,
    vertex: int,
)
    requires
        forall|w: int| 0 <= w < windows ==> indices[w] != vertex,
    ensures
        accumulated(points, indices, windows, vertex) == zero_components(),
    decreases windows,
{
    if windows > 0 {
        lemma_untouched_vertex_zero_normal(points, indices, (windows - 1) as nat, vertex);
    }
}

/// Normal synthesis has no hidden state: two runs on the same geometry both
/// succeed or both fail, with the same error or with normals of the same
/// contents.
pub proof fn lemma_synthesis_deterministic(
    positions: &RawGeometry,
    first: Result<Vec<Vec3>, ObjError>,
    second: Result<Vec<Vec3>, ObjError>,
)
    requires
        synthesis_outcome(positions, first),
        synthesis_outcome(positions, second),
    ensures
        first is Ok <==> second is Ok,
        first is Err ==> first == second,
        first is Ok ==> components_of_all(first->Ok_0@) == components_of_all(second->Ok_0@),
{
}

} // verus!
