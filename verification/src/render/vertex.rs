//! The vertices of a mesh as a vertex buffer holds them.

use vstd::prelude::*;
use crate::graphics::linear::{Vec2, Vec3};
use crate::graphics::primitives::FlatMesh;

verus! {

/// One vertex of a vertex buffer.
#[derive(Clone, Copy, Debug, PartialEq, Eq, Structural)]
pub struct Vertex {
    pub position: Vec3,
    pub normal: Vec3,
    pub tex_coord: Vec2,
}

impl Vertex {
    /// Whether a loaded mesh has, for each of its positions, a normal and a
    /// texture coordinate, or none at all.
    pub open spec fn complete(mesh: FlatMesh) -> bool {
        &&& mesh.normals@.len() == 0 || mesh.normals@.len() >= 3 * (mesh.positions@.len() / 3)
        &&& mesh.texcoords@.len() == 0 || mesh.texcoords@.len() >= 2 * (mesh.positions@.len() / 3)
    }

    /// Vertex `i` of a loaded mesh: its position is made of the three
    /// coordinates from place `3 * i` on, its normal likewise, and its
    /// texture coordinate of the two from place `2 * i` on. A mesh without
    /// normals or without texture coordinates has zeros in their place.
    pub open spec fn of_mesh(mesh: FlatMesh, i: int) -> Vertex {
        Vertex {
            position: Vec3 {
                x: mesh.positions@[3 * i],
                y: mesh.positions@[3 * i + 1],
                z: mesh.positions@[3 * i + 2],
            },
            normal: if mesh.normals@.len() == 0 {
                Vec3::zero()
            } else {
                Vec3 {
                    x: mesh.normals@[3 * i],
                    y: mesh.normals@[3 * i + 1],
                    z: mesh.normals@[3 * i + 2],
                }
            },
            tex_coord: if mesh.texcoords@.len() == 0 {
                Vec2 { x: 0, y: 0 }
            } else {
                Vec2 { x: mesh.texcoords@[2 * i], y: mesh.texcoords@[2 * i + 1] }
            },
        }
    }

    /// The vertices of a loaded mesh, one for every three coordinates of
    /// its positions.
    pub fn from_tobj(mesh: &FlatMesh) -> (r: Vec<Vertex>)
        requires
            Vertex::complete(*mesh),
        ensures
            r@.len() == mesh.positions@.len() / 3,
            forall|i: int| 0 <= i < r@.len() ==> r@[i] == Vertex::of_mesh(*mesh, i),
    {
        let mut vertices: Vec<Vertex> = Vec::new();
        let total = mesh.positions.len();
        let count = total / 3;
        let has_normals = mesh.normals.len() != 0;
        let has_texcoords = mesh.texcoords.len() != 0;
        let mut i: usize = 0;
        while i < count
            invariant
                Vertex::complete(*mesh),
                total == mesh.positions@.len(),
                count == total / 3,
                has_normals == (mesh.normals@.len() != 0),
                has_texcoords == (mesh.texcoords@.len() != 0),
                0 <= i <= count,
                vertices@.len() == i,
                forall|k: int| 0 <= k < i ==> vertices@[k] == Vertex::of_mesh(*mesh, k),
            decreases count - i,
        {
            let position = Vec3::new(
                mesh.positions[i * 3],
                mesh.positions[i * 3 + 1],
                mesh.positions[i * 3 + 2],
            );
            let normal = if has_normals {
                Vec3::new(mesh.normals[i * 3], mesh.normals[i * 3 + 1], mesh.normals[i * 3 + 2])
            } else {
                Vec3::new(0, 0, 0)
            };
            let tex_coord = if has_texcoords {
                Vec2::new(mesh.texcoords[i * 2], mesh.texcoords[i * 2 + 1])
            } else {
                Vec2::new(0, 0)
            };
            vertices.push(Vertex { position, normal, tex_coord });
            i = i + 1;
        }
        vertices
    }
}

} // verus!
