//! Putting the flat arrays of a mesh file together into vertices.
//!
//! The component type `T` of positions, normals and texture coordinates is
//! left open; the functions here only move components around.
use vstd::prelude::*;

verus! {

/// Three components.
#[derive(Clone, Copy, Debug)]
pub struct Vector3<T> {
    pub x: T,
    pub y: T,
    pub z: T,
}

/// Two components.
#[derive(Clone, Copy, Debug)]
pub struct Vector2<T> {
    pub x: T,
    pub y: T,
}

/// A vertex: position, normal, tangent and texture coordinate.
#[derive(Clone, Copy, Debug)]
pub struct Vertex<T> {
    pub pos: Vector3<T>,
    pub normal: Vector3<T>,
    pub tangent: Vector3<T>,
    pub uv: Vector2<T>,
}

/// The vertex at index `x` of a mesh given as flat arrays, with the given
/// component in all three places of its tangent.
pub open spec fn vertex_at<T>(
    positions: Seq<T>,
    normals: Seq<T>,
    texcoords: Seq<T>,
    zero: T,
    x: int,
) -> Vertex<T> {
    Vertex {
        pos: Vector3 { x: positions[x * 3], y: positions[x * 3 + 1], z: positions[x * 3 + 2] },
        normal: Vector3 { x: normals[x * 3], y: normals[x * 3 + 1], z: normals[x * 3 + 2] },
        tangent: Vector3 { x: zero, y: zero, z: zero },
        uv: Vector2 { x: texcoords[x * 2], y: texcoords[x * 2 + 1] },
    }
}

/// Whether there are three normal components and two texture coordinate
/// components for every whole position.
pub open spec fn arrays_fit<T>(positions: Seq<T>, normals: Seq<T>, texcoords: Seq<T>) -> bool {
    &&& (positions.len() / 3) * 3 <= normals.len()
    &&& (positions.len() / 3) * 2 <= texcoords.len()
}

/// Whether the indices come in triangles of vertices that exist.
pub open spec fn triangles_fit(indices: Seq<u32>, vertex_count: int) -> bool {
    &&& indices.len() % 3 == 0
    &&& forall|i: int| 0 <= i < indices.len() ==> (#[trigger] indices[i] as int) < vertex_count
}

/// Checks that the indices come in triangles of vertices that exist, which
/// is what computing tangents relies on.
pub fn check_triangles(indices: &Vec<u32>, vertex_count: usize) -> (fit: bool)
    ensures
        fit == triangles_fit(indices@, vertex_count as int),
{
    if indices.len() % 3 != 0 {
        return false;
    }
    let mut i: usize = 0;
    while i < indices.len()
        invariant
            i <= indices.len(),
            forall|k: int| 0 <= k < i ==> (#[trigger] indices@[k] as int) < vertex_count,
        decreases indices.len() - i,
    {
        if indices[i] as usize >= vertex_count {
            return false;
        }
        i += 1;
    }
    true
}

/// Puts the vertices of a mesh together: one vertex for every three
/// position components, with its normal and texture coordinate, and with
/// `zero` as its tangent. Nothing is returned unless normals and texture
/// coordinates are there for every vertex and the indices come in
/// triangles of these vertices.
pub fn load<T: Copy>(
    positions: &Vec<T>,
    normals: &Vec<T>,
    texcoords: &Vec<T>,
    indices: Vec<u32>,
    zero: T,
) -> (mesh: Option<(Vec<Vertex<T>>, Vec<u32>)>)
    ensures
        mesh is Some <==> arrays_fit(positions@, normals@, texcoords@) && triangles_fit(
            indices@,
            positions@.len() as int / 3,
        ),
        mesh matches Some((vertices, kept)) ==> {
            &&& kept@ == indices@
            &&& vertices@.len() == positions@.len() / 3
            &&& forall|x: int|
                0 <= x < vertices@.len() ==> #[trigger] vertices@[x] == vertex_at(
                    positions@,
                    normals@,
                    texcoords@,
                    zero,
                    x,
                )
        },
{
    let count: usize = positions.len() / 3;
    if normals.len() / 3 < count || texcoords.len() / 2 < count {
        return None;
    }
    if !check_triangles(&indices, count) {
        return None;
    }
    let mut vertices: Vec<Vertex<T>> = Vec::new();
    let mut x: usize = 0;
    while x < count
        invariant
            x <= count,
            count == positions.len() / 3,
            count * 3 <= positions.len(),
            count * 3 <= normals.len(),
            count * 2 <= texcoords.len(),
            vertices@.len() == x,
            forall|k: int|
                0 <= k < x ==> #[trigger] vertices@[k] == vertex_at(
                    positions@,
                    normals@,
                    texcoords@,
                    zero,
                    k,
                ),
        decreases count - x,
    {
        let vertex = Vertex {
            pos: Vector3 { x: positions[x * 3], y: positions[x * 3 + 1], z: positions[x * 3 + 2] },
            normal: Vector3 { x: normals[x * 3], y: normals[x * 3 + 1], z: normals[x * 3 + 2] },
            tangent: Vector3 { x: zero, y: zero, z: zero },
            uv: Vector2 { x: texcoords[x * 2], y: texcoords[x * 2 + 1] },
        };
        vertices.push(vertex);
        x += 1;
    }
    Some((vertices, indices))
}

} // verus!
