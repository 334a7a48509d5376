//! The plain records that describe a scene: primitive kinds, light,
//! material, camera, transform and mesh.

use vstd::prelude::*;
use crate::graphics::attributes::VertexAttributes;
use crate::graphics::fixed::{add_scalars, difference, subtract, sum};
use crate::graphics::linear::{Vec2, Vec3};

verus! {

/// How an index list is grouped into primitives.
#[derive(Clone, Copy, Debug, PartialEq, Eq, Structural)]
pub enum PrimitiveType {
    /// Three consecutive indices form a triangle.
    Triangle,
    /// Two consecutive indices form a line.
    Line,
}

/// The kind of image a render is exported to.
#[derive(Clone, Copy, Debug, PartialEq, Eq, Structural)]
pub enum RenderType {
    /// A single still image.
    Png,
    /// A looping animation.
    Gif,
}

/// Why a stage of the pipeline gave up.
#[derive(Clone, Copy, Debug, PartialEq, Eq, Structural)]
pub enum RasterError {
    /// A mesh or configuration resource is missing or unreadable.
    ResourceUnavailable,
    /// A primitive has no area on screen, so it has no barycentric
    /// coordinates.
    GeometryDegenerate,
    /// An index refers to a vertex that was not supplied.
    IndexOutOfRange,
    /// A stage produced a value the pipeline cannot work with.
    ShaderStageFailure,
}

/// A point light.
#[derive(Clone, Copy, Debug, PartialEq, Eq, Structural)]
pub struct Light {
    pub position: Vec3,
    pub intensity: Vec3,
}

/// The reflectance of a surface.
#[derive(Clone, Copy, Debug, PartialEq, Eq, Structural)]
pub struct Material {
    pub ambient_color: Vec3,
    pub diffuse_color: Vec3,
    pub specular_color: Vec3,
    pub shininess: i32,
}

/// An axis-aligned camera.
#[derive(Clone, Copy, Debug, PartialEq, Eq, Structural)]
pub struct Camera {
    pub is_perspective: bool,
    pub position: Vec3,
    /// The vertical field of view, in radians.
    pub field_of_view: i32,
    pub aspect_ratio: i32,
}

/// The placement of the model: a rotation about the vertical axis by
/// `angle` half-turns and a translation by `distance` away from the viewer.
#[derive(Clone, Copy, Debug, PartialEq, Eq, Structural)]
pub struct Transform {
    pub angle: i32,
    pub distance: i32,
}

/// The number of frames of a turntable animation.
pub const TURNTABLE_FRAMES: usize = 20;

/// How long each frame of a turntable animation is shown, in milliseconds.
pub const TURNTABLE_DELAY: u64 = 75;

/// By how much the angle grows from one frame of a turntable animation to
/// the next: a tenth of a half-turn.
pub const TURNTABLE_ANGLE_STEP: i32 = 6553;

/// By how much the distance shrinks from one frame of a turntable animation
/// to the next: a fiftieth.
pub const TURNTABLE_DISTANCE_STEP: i32 = 1310;

/// An indexed mesh.
#[derive(Clone, Debug)]
pub struct Mesh {
    pub positions: Vec<Vec3>,
    pub normals: Vec<Vec3>,
    /// 2D texture coordinates of the vertices.
    pub texcoords: Vec<Vec2>,
    /// The vertex indices of each face, one face after the other.
    pub indices: Vec<usize>,
    /// The number of vertices of each face.
    pub num_face_indices: Vec<u32>,
    /// The material of the mesh, if it has one.
    pub material_id: Option<usize>,
}

/// A mesh as a loader hands it over: flat lists of coordinates and indices.
#[derive(Clone, Debug)]
pub struct FlatMesh {
    pub positions: Vec<i32>,
    pub normals: Vec<i32>,
    pub texcoords: Vec<i32>,
    pub indices: Vec<u32>,
    pub num_face_indices: Vec<u32>,
    pub material_id: Option<usize>,
}

/// A material as a loader hands it over.
#[derive(Clone, Copy, Debug)]
pub struct FlatMaterial {
    pub ambient: [i32; 3],
    pub diffuse: [i32; 3],
    pub specular: [i32; 3],
    pub shininess: i32,
}

/// The three values of a flat list that start at place `i`, as a vector.
pub open spec fn triple_at(flat: Seq<i32>, i: int) -> Vec3 {
    Vec3 { x: flat[i], y: flat[i + 1], z: flat[i + 2] }
}

/// The two values of a flat list that start at place `i`, as a vector.
pub open spec fn pair_at(flat: Seq<i32>, i: int) -> Vec2 {
    Vec2 { x: flat[i], y: flat[i + 1] }
}

/// The three values of an array as a vector.
pub open spec fn vector_of(a: [i32; 3]) -> Vec3 {
    Vec3 { x: a@[0], y: a@[1], z: a@[2] }
}

impl Transform {
    /// The transform of the next frame of a turntable animation.
    pub open spec fn advanced(self) -> Transform {
        Transform {
            angle: sum(self.angle as int, TURNTABLE_ANGLE_STEP as int) as i32,
            distance: difference(self.distance as int, TURNTABLE_DISTANCE_STEP as int) as i32,
        }
    }

    /// Moves on to the next frame of a turntable animation: the model turns
    /// a little further and comes a little closer.
    pub fn advance(&mut self)
        ensures
            *final(self) == old(self).advanced(),
    {
        self.angle = add_scalars(self.angle, TURNTABLE_ANGLE_STEP);
        self.distance = subtract(self.distance, TURNTABLE_DISTANCE_STEP);
    }
}

impl Material {
    /// Takes the colours and the shininess of a loaded material.
    pub fn from_obj(obj: &FlatMaterial) -> (r: Self)
        ensures
            r == (Material {
                ambient_color: vector_of(obj.ambient),
                diffuse_color: vector_of(obj.diffuse),
                specular_color: vector_of(obj.specular),
                shininess: obj.shininess,
            }),
    {
        Material {
            ambient_color: Vec3::new(obj.ambient[0], obj.ambient[1], obj.ambient[2]),
            diffuse_color: Vec3::new(obj.diffuse[0], obj.diffuse[1], obj.diffuse[2]),
            specular_color: Vec3::new(obj.specular[0], obj.specular[1], obj.specular[2]),
            shininess: obj.shininess,
        }
    }
}

impl Mesh {
    /// Whether a loaded mesh has a normal for each of its positions.
    pub open spec fn convertible(obj: FlatMesh) -> bool {
        obj.positions@.len() >= 3 ==> obj.normals@.len() >= obj.positions@.len() / 3 + 2
    }

    /// Groups the flat lists of a loaded mesh into vectors. A list of `n`
    /// coordinates gives `n / 3` positions, and position `i` takes the three
    /// values that start at place `i`; normals go the same way, and texture
    /// coordinates by two.
    pub fn from_obj(obj: &FlatMesh) -> (r: Self)
        requires
            Mesh::convertible(*obj),
        ensures
            r.positions@.len() == obj.positions@.len() / 3,
            r.normals@.len() == obj.positions@.len() / 3,
            forall|i: int|
                0 <= i < r.positions@.len() ==> r.positions@[i] == triple_at(obj.positions@, i)
                    && r.normals@[i] == triple_at(obj.normals@, i),
            r.texcoords@.len() == obj.texcoords@.len() / 2,
            forall|i: int|
                0 <= i < r.texcoords@.len() ==> r.texcoords@[i] == pair_at(obj.texcoords@, i),
            r.indices@.len() == obj.indices@.len(),
            forall|i: int| 0 <= i < r.indices@.len() ==> r.indices@[i] == obj.indices@[i],
            r.num_face_indices@ == obj.num_face_indices@,
            r.material_id == obj.material_id,
    {
        let mut vertices: Vec<Vec3> = Vec::new();
        let mut norms: Vec<Vec3> = Vec::new();
        let total = obj.positions.len();
        let count = total / 3;
        let mut i: usize = 0;
        while i < count
            invariant
                Mesh::convertible(*obj),
                total == obj.positions@.len(),
                count == total / 3,
                0 <= i <= count,
                vertices@.len() == i,
                norms@.len() == i,
                forall|k: int|
                    0 <= k < i ==> vertices@[k] == triple_at(obj.positions@, k) && norms@[k]
                        == triple_at(obj.normals@, k),
            decreases count - i,
        {
            vertices.push(
                Vec3::new(obj.positions[i], obj.positions[i + 1], obj.positions[i + 2]),
            );
            norms.push(Vec3::new(obj.normals[i], obj.normals[i + 1], obj.normals[i + 2]));
            i = i + 1;
        }
        let mut coords: Vec<Vec2> = Vec::new();
        let total = obj.texcoords.len();
        let pairs = total / 2;
        let mut i: usize = 0;
        while i < pairs
            invariant
                total == obj.texcoords@.len(),
                pairs == total / 2,
                0 <= i <= pairs,
                coords@.len() == i,
                forall|k: int| 0 <= k < i ==> coords@[k] == pair_at(obj.texcoords@, k),
            decreases pairs - i,
        {
            coords.push(Vec2::new(obj.texcoords[i], obj.texcoords[i + 1]));
            i = i + 1;
        }
        let mut inds: Vec<usize> = Vec::new();
        let mut i: usize = 0;
        while i < obj.indices.len()
            invariant
                0 <= i <= obj.indices@.len(),
                inds@.len() == i,
                forall|k: int| 0 <= k < i ==> inds@[k] == obj.indices@[k],
            decreases obj.indices@.len() - i,
        {
            inds.push(obj.indices[i] as usize);
            i = i + 1;
        }
        let mut faces: Vec<u32> = Vec::new();
        let mut i: usize = 0;
        while i < obj.num_face_indices.len()
            invariant
                0 <= i <= obj.num_face_indices@.len(),
                faces@ == obj.num_face_indices@.take(i as int),
            decreases obj.num_face_indices@.len() - i,
        {
            faces.push(obj.num_face_indices[i]);
            assert(obj.num_face_indices@.take(i + 1) =~= obj.num_face_indices@.take(
                i as int,
            ).push(obj.num_face_indices@[i as int]));
            i = i + 1;
        }
        assert(obj.num_face_indices@.take(i as int) =~= obj.num_face_indices@);
        Mesh {
            positions: vertices,
            normals: norms,
            texcoords: coords,
            indices: inds,
            num_face_indices: faces,
            material_id: obj.material_id,
        }
    }

    /// The vertex built from position `i` and normal `i`.
    pub open spec fn vertex(&self, i: int) -> VertexAttributes {
        VertexAttributes::from_parts(self.positions@[i], self.normals@[i])
    }

    /// Pairs each position with its normal. Fails with `IndexOutOfRange`
    /// when the mesh has fewer normals than positions.
    pub fn as_vertex_attrs(&self) -> (r: Result<Vec<VertexAttributes>, RasterError>)
        ensures
            self.normals@.len() < self.positions@.len() <==> r == Err::<
                Vec<VertexAttributes>,
                RasterError,
            >(RasterError::IndexOutOfRange),
            self.normals@.len() >= self.positions@.len() ==> r is Ok && r->Ok_0@.len()
                == self.positions@.len() && forall|i: int|
                0 <= i < self.positions@.len() ==> r->Ok_0@[i] == self.vertex(i),
    {
        if self.normals.len() < self.positions.len() {
            return Err(RasterError::IndexOutOfRange);
        }
        let mut vertices: Vec<VertexAttributes> = Vec::new();
        let mut i: usize = 0;
        while i < self.positions.len()
            invariant
                self.normals@.len() >= self.positions@.len(),
                0 <= i <= self.positions@.len(),
                vertices@.len() == i,
                forall|k: int| 0 <= k < i ==> vertices@[k] == self.vertex(k),
            decreases self.positions@.len() - i,
        {
            vertices.push(VertexAttributes::new(self.positions[i], self.normals[i]));
            i = i + 1;
        }
        Ok(vertices)
    }
}

} // verus!
