//! Assembly of triangle meshes that arrive as flat attribute arrays and one
//! index buffer: how many vertices the arrays describe and what each is made
//! of, how many triangle corners meet in each vertex, and which material a
//! mesh is drawn with.
//!
//! The components of a vertex are moved, never computed with, so the code
//! here is generic in their type.

use vstd::multiset::Multiset;
use vstd::prelude::*;

verus! {

/// Why a mesh cannot be assembled.
#[derive(Clone, Copy, Debug, PartialEq, Eq, Structural)]
pub enum MeshError {
    /// There are fewer than two texture coordinates for some vertex.
    MissingTexcoords,
    /// There are fewer than three normal components for some vertex.
    MissingNormals,
    /// The index buffer does not divide into triangles.
    PartialTriangle,
    /// The index buffer refers to a vertex that does not exist.
    IndexOutOfRange,
    /// The mesh asks for a material that was not loaded.
    MissingMaterial,
}

/// The number of vertices that `positions` position components describe,
/// three to a vertex. Components left over at the end describe none.
pub open spec fn described_vertices(positions: nat) -> nat {
    positions / 3
}

/// The number of vertices of a mesh with `positions` position components,
/// `texcoords` texture coordinates and `normals` normal components.
///
/// Every vertex takes three position components, two texture coordinates
/// and three normal components. It is an error if the texture coordinates
/// or the normals do not reach as far as the positions; where both fall
/// short, the texture coordinates are named.
pub fn vertex_count(positions: usize, texcoords: usize, normals: usize) -> (count: Result<
    usize,
    MeshError,
>)
    ensures
        count is Ok <==> 2 * described_vertices(positions as nat) <= texcoords && 3
            * described_vertices(positions as nat) <= normals,
        count matches Ok(n) ==> n == described_vertices(positions as nat),
        count matches Err(e) ==> e == if texcoords < 2 * described_vertices(positions as nat) {
            MeshError::MissingTexcoords
        } else {
            MeshError::MissingNormals
        },
{
    let count = positions / 3;
    if texcoords < 2 * count {
        Err(MeshError::MissingTexcoords)
    } else if normals < 3 * count {
        Err(MeshError::MissingNormals)
    } else {
        Ok(count)
    }
}

/// One vertex of a mesh, with components of type `T`.
#[derive(Debug, PartialEq)]
pub struct Vertex<T> {
    pub position: [T; 3],
    pub texture_coords: [T; 2],
    pub normal: [T; 3],
    pub tangent: [T; 3],
    pub bitangent: [T; 3],
}

/// The vertex with the number `i` of a mesh that is given as flat arrays:
/// its position, texture coordinates and normal are read at its place in
/// each array, and its tangent and bitangent are `zero` throughout.
pub open spec fn gathered<T>(
    positions: Seq<T>,
    texcoords: Seq<T>,
    normals: Seq<T>,
    zero: T,
    i: int,
) -> Vertex<T> {
    Vertex {
        position: [positions[3 * i], positions[3 * i + 1], positions[3 * i + 2]],
        texture_coords: [texcoords[2 * i], texcoords[2 * i + 1]],
        normal: [normals[3 * i], normals[3 * i + 1], normals[3 * i + 2]],
        tangent: [zero, zero, zero],
        bitangent: [zero, zero, zero],
    }
}

/// The vertices of a mesh that is given as flat arrays, in their order.
/// Tangents and bitangents are yet to be found and start as `zero`.
///
/// The errors are those of `vertex_count`.
pub fn vertices<T: Copy>(positions: &[T], texcoords: &[T], normals: &[T], zero: T) -> (gathering:
    Result<Vec<Vertex<T>>, MeshError>)
    ensures
        gathering is Ok <==> 2 * described_vertices(positions@.len()) <= texcoords@.len() && 3
            * described_vertices(positions@.len()) <= normals@.len(),
        gathering matches Ok(v) ==> v@.len() == described_vertices(positions@.len())
            && forall|i: int|
            0 <= i < v@.len() ==> (#[trigger] v@[i]) == gathered(
                positions@,
                texcoords@,
                normals@,
                zero,
                i,
            ),
        gathering matches Err(e) ==> e == if texcoords@.len() < 2 * described_vertices(
            positions@.len(),
        ) {
            MeshError::MissingTexcoords
        } else {
            MeshError::MissingNormals
        },
{
    let count = match vertex_count(positions.len(), texcoords.len(), normals.len()) {
        Ok(count) => count,
        Err(error) => {
            return Err(error);
        },
    };
    let mut gathering: Vec<Vertex<T>> = Vec::new();
    let mut i: usize = 0;
    while i < count
        invariant
            i <= count,
            count == described_vertices(positions@.len()),
            3 * count <= positions@.len() <= usize::MAX,
            2 * count <= texcoords@.len(),
            3 * count <= normals@.len(),
            gathering@.len() == i,
            forall|j: int|
                0 <= j < i ==> (#[trigger] gathering@[j]) == gathered(
                    positions@,
                    texcoords@,
                    normals@,
                    zero,
                    j,
                ),
        decreases count - i,
    {
        let vertex = Vertex {
            position: [positions[3 * i], positions[3 * i + 1], positions[3 * i + 2]],
            texture_coords: [texcoords[2 * i], texcoords[2 * i + 1]],
            normal: [normals[3 * i], normals[3 * i + 1], normals[3 * i + 2]],
            tangent: [zero, zero, zero],
            bitangent: [zero, zero, zero],
        };
        gathering.push(vertex);
        i = i + 1;
    }
    Ok(gathering)
}

/// The vertices that an index buffer refers to, each as often as it is
/// referred to.
pub open spec fn corners(indices: Seq<u32>) -> Multiset<int> {
    indices.map_values(|index: u32| index as int).to_multiset()
}

/// Whether every index refers to one of `vertex_count` vertices.
pub open spec fn indices_in_range(indices: Seq<u32>, vertex_count: nat) -> bool {
    forall|i: int| 0 <= i < indices.len() ==> (#[trigger] indices[i]) < vertex_count
}

/// Without indices there are no corners.
proof fn lemma_corners_empty(indices: Seq<u32>)
    requires
        indices.len() == 0,
    ensures
        corners(indices) == Multiset::<int>::empty(),
{
    let widened = indices.map_values(|index: u32| index as int);
    widened.to_multiset_ensures();
    vstd::multiset::lemma_multiset_empty_len(widened.to_multiset());
}

/// One more index adds one corner at the vertex it names.
proof fn lemma_corners_push(indices: Seq<u32>, index: u32)
    ensures
        corners(indices.push(index)) == corners(indices).insert(index as int),
{
    let widen = |index: u32| index as int;
    assert(indices.push(index).map_values(widen) == indices.map_values(widen).push(
        index as int,
    ));
    vstd::seq_lib::to_multiset_build(indices.map_values(widen), index as int);
}

/// Every index is one corner, so there are as many corners as indices, and
/// no vertex has more of them.
pub proof fn lemma_corners_total(indices: Seq<u32>)
    ensures
        corners(indices).len() == indices.len(),
        forall|vertex: int| #[trigger] corners(indices).count(vertex) <= indices.len(),
{
    let widened = indices.map_values(|index: u32| index as int);
    widened.to_multiset_ensures();
    assert(widened.to_multiset().len() == indices.len());
}

/// For each of `vertex_count` vertices, the number of triangle corners that
/// lie in it: how often the index buffer names it.
///
/// The buffer holds three indices per triangle. It is an error if its
/// length is no multiple of three, or else if one of the indices is
/// `vertex_count` or more.
pub fn triangle_counts(vertex_count: usize, indices: &[u32]) -> (counts: Result<
    Vec<usize>,
    MeshError,
>)
    ensures
        counts is Ok <==> indices@.len() % 3 == 0 && indices_in_range(
            indices@,
            vertex_count as nat,
        ),
        counts matches Ok(c) ==> c@.len() == vertex_count && forall|v: int|
            0 <= v < vertex_count ==> (#[trigger] c@[v]) == corners(indices@).count(v),
        counts matches Err(e) ==> e == if indices@.len() % 3 != 0 {
            MeshError::PartialTriangle
        } else {
            MeshError::IndexOutOfRange
        },
{
    if indices.len() % 3 != 0 {
        return Err(MeshError::PartialTriangle);
    }
    let mut counts: Vec<usize> = vec![0usize; vertex_count];
    proof {
        lemma_corners_empty(indices@.take(0));
    }
    let mut i: usize = 0;
    while i < indices.len()
        invariant
            i <= indices@.len(),
            indices@.len() % 3 == 0,
            counts@.len() == vertex_count,
            indices_in_range(indices@.take(i as int), vertex_count as nat),
            forall|w: int|
                0 <= w < vertex_count ==> (#[trigger] counts@[w]) == corners(
                    indices@.take(i as int),
                ).count(w),
        decreases indices@.len() - i,
    {
        let index = indices[i];
        if index as usize >= vertex_count {
            assert(!indices_in_range(indices@, vertex_count as nat));
            return Err(MeshError::IndexOutOfRange);
        }
        proof {
            assert(indices@.take(i + 1) == indices@.take(i as int).push(index));
            lemma_corners_push(indices@.take(i as int), index);
            lemma_corners_total(indices@.take(i as int));
        }
        let at = index as usize;
        let seen = counts[at];
        counts.set(at, seen + 1);
        i = i + 1;
    }
    assert(indices@.take(i as int) == indices@);
    Ok(counts)
}

/// The material that a mesh is drawn with, out of `materials` loaded ones.
///
/// A mesh that names no material takes the first. It is an error if the
/// material is not among those loaded.
pub fn material_index(material_id: Option<usize>, materials: usize) -> (index: Result<
    usize,
    MeshError,
>)
    ensures
        index is Ok <==> material_id.unwrap_or(0) < materials,
        index matches Ok(i) ==> i == material_id.unwrap_or(0),
        index matches Err(e) ==> e == MeshError::MissingMaterial,
{
    let index = material_id.unwrap_or(0);
    if index < materials {
        Ok(index)
    } else {
        Err(MeshError::MissingMaterial)
    }
}

} // verus!
