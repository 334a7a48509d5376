use lucien::graphics::attributes::{
    pack_channel, FragmentAttributes, FrameBuffer, FrameBufferAttributes, PackedColor, Trigonometry,
    UniformAttributes, VertexAttributes,
};
use lucien::graphics::fixed::{
    add_scalars, div_floor, divide, int_sqrt, multiply, negate, saturate_i32, subtract,
};
use lucien::graphics::linear::{Mat4, Vec2, Vec3, Vec4};
use lucien::graphics::primitives::{Camera, Light, Material, Mesh, RasterError, Transform};
use lucien::graphics::raster::{BlendingShader, FragmentShader, VertexShader};
use lucien::graphics::shaders::{DepthTestedBlend, FlatColor, MatrixTransform, PhongLighting};

const ONE: i32 = 65536;
const HALF: i32 = 32768;

fn fx(v: f64) -> i32 {
    (v * 65536.0).floor() as i32
}

fn v3(x: f64, y: f64, z: f64) -> Vec3 {
    Vec3::new(fx(x), fx(y), fx(z))
}

fn uniform() -> UniformAttributes {
    let zero = Vec3::new(0, 0, 0);
    UniformAttributes {
        light: Light { position: zero, intensity: zero },
        material: Material {
            ambient_color: zero,
            diffuse_color: zero,
            specular_color: zero,
            shininess: 0,
        },
        camera: Camera { is_perspective: false, position: zero, field_of_view: 0, aspect_ratio: ONE },
        transform: Transform { angle: 0, distance: 0 },
        view_matrix: Mat4::identity(),
        model_matrix: Mat4::identity(),
        projection_matrix: Mat4::identity(),
        normal_matrix: Mat4::identity(),
    }
}

#[test]
fn quotients_round_towards_minus_infinity() {
    assert_eq!(div_floor(7, 2), 3);
    assert_eq!(div_floor(-7, 2), -4);
    assert_eq!(div_floor(7, -2), -4);
    assert_eq!(div_floor(-7, -2), 3);
    assert_eq!(div_floor(-8, 2), -4);
    assert_eq!(div_floor(0, -5), 0);
}

#[test]
fn integer_square_root_is_the_floor() {
    assert_eq!(int_sqrt(0), 0);
    assert_eq!(int_sqrt(1), 1);
    assert_eq!(int_sqrt(10), 3);
    assert_eq!(int_sqrt(15), 3);
    assert_eq!(int_sqrt(16), 4);
    assert_eq!(int_sqrt(u128::MAX), u64::MAX as u128);
}

#[test]
fn scalar_arithmetic_is_exact_within_range() {
    assert_eq!(multiply(fx(1.5), fx(2.0)), fx(3.0));
    assert_eq!(multiply(fx(-1.5), fx(0.5)), fx(-0.75));
    assert_eq!(multiply(1, 1), 0);
    assert_eq!(multiply(-1, 1), -1);
    assert_eq!(divide(fx(3.0), fx(2.0)), fx(1.5));
    assert_eq!(divide(fx(1.0), fx(-4.0)), fx(-0.25));
    assert_eq!(negate(fx(2.5)), fx(-2.5));
    assert_eq!(add_scalars(fx(1.25), fx(2.5)), fx(3.75));
    assert_eq!(subtract(fx(1.25), fx(2.5)), fx(-1.25));
}

#[test]
fn scalar_arithmetic_saturates() {
    assert_eq!(multiply(i32::MAX, fx(2.0)), i32::MAX);
    assert_eq!(multiply(i32::MIN, fx(2.0)), i32::MIN);
    assert_eq!(divide(i32::MAX, fx(0.5)), i32::MAX);
    assert_eq!(negate(i32::MIN), i32::MAX);
    assert_eq!(add_scalars(i32::MAX, 1), i32::MAX);
    assert_eq!(subtract(i32::MIN, 1), i32::MIN);
    assert_eq!(saturate_i32(1 << 40), i32::MAX);
    assert_eq!(saturate_i32(-(1 << 40)), i32::MIN);
    assert_eq!(saturate_i32(-5), -5);
}

#[test]
fn vectors_add_subtract_and_multiply_by_component() {
    let a = v3(1.0, 2.0, 3.0);
    let b = v3(0.5, -1.0, 2.0);
    assert_eq!(a.plus(b), v3(1.5, 1.0, 5.0));
    assert_eq!(a.minus(b), v3(0.5, 3.0, 1.0));
    assert_eq!(a.times(b), v3(0.5, -2.0, 6.0));
    assert_eq!(a.scaled(fx(0.5)), v3(0.5, 1.0, 1.5));
    assert_eq!(a.dot(b), fx(4.5));
    assert_eq!(a.extend(ONE), Vec4::new(fx(1.0), fx(2.0), fx(3.0), ONE));
    assert_eq!(a.extend(ONE).truncate(), a);
    assert_eq!(Vec2::new(1, 2), Vec2 { x: 1, y: 2 });
}

#[test]
fn normalize_scales_to_unit_length_and_keeps_zero() {
    assert_eq!(v3(3.0, 4.0, 0.0).normalize(), Vec3::new(39321, 52428, 0));
    assert_eq!(v3(0.0, 0.0, -7.0).normalize(), v3(0.0, 0.0, -1.0));
    assert_eq!(Vec3::new(0, 0, 0).normalize(), Vec3::new(0, 0, 0));
    assert_eq!(Vec3::new(i32::MIN, 0, 0).normalize(), v3(-1.0, 0.0, 0.0));
}

#[test]
fn matrix_times_vector() {
    let v = Vec4::new(fx(1.0), fx(2.0), fx(3.0), ONE);
    assert_eq!(Mat4::identity().mul_vec4(v), v);
    let mut shift = Mat4::identity();
    shift.w_axis = Vec4::new(fx(10.0), fx(20.0), fx(30.0), ONE);
    assert_eq!(shift.mul_vec4(v), Vec4::new(fx(11.0), fx(22.0), fx(33.0), ONE));
    let mut scale = Mat4::identity();
    scale.x_axis.x = i32::MAX;
    assert_eq!(scale.mul_vec4(Vec4::new(fx(4.0), 0, 0, ONE)).x, i32::MAX);
}

#[test]
fn interpolation_with_all_weight_on_one_vertex_gives_that_vertex_divided() {
    let a = VertexAttributes {
        position: Vec4::new(fx(1.0), fx(-2.0), fx(0.5), fx(2.0)),
        normal: v3(0.0, 3.0, 4.0),
        frag_pos: v3(9.0, 9.0, 9.0),
    };
    let b = VertexAttributes::new(v3(5.0, 5.0, 5.0), v3(1.0, 0.0, 0.0));
    let c = VertexAttributes::new(v3(-5.0, 7.0, 1.0), v3(0.0, 1.0, 0.0));
    let r = VertexAttributes::interpolate(a, b, c, ONE, 0, 0).unwrap();
    assert_eq!(r.position, Vec4::new(fx(0.5), fx(-1.0), fx(0.25), ONE));
    assert_eq!(r.normal, Vec3::new(0, 39321, 52428));
    assert_eq!(r.frag_pos, Vec3::new(0, 0, 0));
    let r = VertexAttributes::interpolate(a, b, c, 0, ONE, 0).unwrap();
    assert_eq!(r.position, Vec4::new(fx(5.0), fx(5.0), fx(5.0), ONE));
    assert_eq!(r.normal, v3(1.0, 0.0, 0.0));
}

#[test]
fn interpolation_with_equal_weights_is_close_to_the_average() {
    let a = VertexAttributes::new(v3(3.0, 0.0, -6.0), v3(0.0, 0.0, 1.0));
    let b = VertexAttributes::new(v3(0.0, 3.0, 0.0), v3(0.0, 0.0, 1.0));
    let c = VertexAttributes::new(v3(0.0, 0.0, 3.0), v3(0.0, 0.0, 1.0));
    let third = ONE / 3;
    let r = VertexAttributes::interpolate(a, b, c, third, third, third).unwrap();
    // One third is held as 21845/65536, so the result is the floor of
    // 21845/65536 times the sum.
    assert_eq!(r.position.x, 65535);
    assert_eq!(r.position.y, 65535);
    assert_eq!(r.position.z, -65535);
    assert_eq!(r.position.w, 65535);
    assert_eq!(r.normal, v3(0.0, 0.0, 1.0));
}

#[test]
fn interpolation_is_undefined_without_w_or_beyond_the_range() {
    let a = VertexAttributes::new(v3(1.0, 1.0, 1.0), v3(0.0, 0.0, 1.0));
    let mut flat = a;
    flat.position.w = 0;
    assert_eq!(VertexAttributes::interpolate(flat, a, a, ONE, 0, 0), None);
    assert_eq!(VertexAttributes::interpolate(a, flat, a, ONE, 0, 0), None);
    assert_eq!(VertexAttributes::interpolate(a, a, flat, ONE, 0, 0), None);
    let mut big = a;
    big.position.x = i32::MAX;
    assert_eq!(VertexAttributes::interpolate(big, a, a, fx(2.0), 0, 0), None);
    assert!(VertexAttributes::interpolate(big, a, a, ONE, 0, 0).is_some());
    assert_eq!(VertexAttributes::interpolate(a, a, a, i32::MAX, i32::MAX, 0), None);
}

#[test]
fn new_vertex_has_unit_w_and_default_is_zero() {
    let v = VertexAttributes::new(v3(1.0, 2.0, 3.0), v3(0.0, 1.0, 0.0));
    assert_eq!(v.position, Vec4::new(fx(1.0), fx(2.0), fx(3.0), ONE));
    assert_eq!(v.normal, v3(0.0, 1.0, 0.0));
    assert_eq!(v.frag_pos, Vec3::new(0, 0, 0));
    let d = VertexAttributes::default();
    assert_eq!(d.position, Vec4::new(0, 0, 0, 0));
    assert_eq!(d.normal, Vec3::new(0, 0, 0));
    assert_eq!(d.frag_pos, Vec3::new(0, 0, 0));
    let f = FragmentAttributes::new(Vec4::new(1, 2, 3, 4), Vec3::new(5, 6, 7), Vec3::new(8, 9, 10));
    assert_eq!(f.color, Vec4::new(1, 2, 3, 4));
    assert_eq!(f.position, Vec3::new(5, 6, 7));
    assert_eq!(f.normal, Vec3::new(8, 9, 10));
}

#[test]
fn empty_cell_is_opaque_white_at_depth_one_hundred() {
    let cell = FrameBufferAttributes::new();
    assert_eq!(cell.color, PackedColor { r: 255, g: 255, b: 255, a: 255 });
    assert_eq!(cell.depth, 100 * ONE);
    assert_eq!(cell.get_color(), Vec4::new(ONE, ONE, ONE, ONE));
}

#[test]
fn channels_unpack_and_pack_back() {
    let cell = FrameBufferAttributes { color: PackedColor { r: 0, g: 1, b: 128, a: 254 }, depth: 0 };
    assert_eq!(cell.get_color(), Vec4::new(0, 258, 32897, 65279));
    for c in 0..=255u8 {
        let cell = FrameBufferAttributes { color: PackedColor { r: c, g: 0, b: 0, a: 0 }, depth: 0 };
        assert_eq!(pack_channel(cell.get_color().x as i128), c);
    }
    assert_eq!(pack_channel(-5), 0);
    assert_eq!(pack_channel(2 * ONE as i128), 255);
    assert_eq!(pack_channel(HALF as i128), 127);
}

#[test]
fn frame_buffer_keeps_what_is_set() {
    let mut fb = FrameBuffer::new(3, 2);
    assert_eq!(fb.width(), 3);
    assert_eq!(fb.height(), 2);
    let cell = FrameBufferAttributes { color: PackedColor { r: 1, g: 2, b: 3, a: 4 }, depth: -7 };
    fb.set(2, 1, cell);
    assert_eq!(fb.get(2, 1), cell);
    assert_eq!(fb.get(1, 1), FrameBufferAttributes::new());
    assert_eq!(fb.get(2, 0), FrameBufferAttributes::new());
    let raw = fb.as_raw();
    assert_eq!(raw.len(), 24);
    assert_eq!(&raw[20..24], &[1, 2, 3, 4]);
    assert!(raw[..20].iter().all(|&b| b == 255));
    let empty = FrameBuffer::new(0, 5);
    assert_eq!(empty.width(), 0);
    assert_eq!(empty.height(), 5);
    assert_eq!(empty.as_raw().len(), 0);
}

#[test]
fn orthographic_projection_is_the_identity() {
    let mut u = uniform();
    u.projection_matrix = Mat4::identity();
    u.projection_matrix.x_axis.x = 5;
    let trig = Trigonometry { cos_angle: ONE, sin_angle: 0, cot_half_fov: fx(2.0) };
    u.calc_projection_matrix(&trig);
    assert_eq!(u.projection_matrix, Mat4::identity());
}

#[test]
fn perspective_projection_follows_the_right_handed_formula() {
    let mut u = uniform();
    u.camera.is_perspective = true;
    u.camera.field_of_view = fx(1.0);
    u.camera.aspect_ratio = fx(1.5);
    let trig = Trigonometry { cos_angle: ONE, sin_angle: 0, cot_half_fov: fx(3.0) };
    u.calc_projection_matrix(&trig);
    let p = u.projection_matrix;
    assert_eq!(p.w_axis.w, 0);
    assert_eq!(p.x_axis, Vec4::new(fx(2.0), 0, 0, 0));
    assert_eq!(p.y_axis, Vec4::new(0, fx(3.0), 0, 0));
    assert_eq!(p.z_axis, Vec4::new(0, 0, -HALF, -ONE));
    assert_eq!(p.w_axis, Vec4::new(0, 0, HALF, 0));
    // A point on the near plane, z = 1 in front of the camera looking down -z.
    let clip = p.mul_vec4(Vec4::new(0, 0, fx(-2.0), ONE));
    assert_eq!(clip.w, fx(2.0));
    assert_eq!(clip.z, fx(1.5));
}

#[test]
fn model_view_and_normal_matrices() {
    let mut u = uniform();
    u.transform = Transform { angle: HALF, distance: fx(2.0) };
    u.camera.position = v3(1.0, -2.0, 3.0);
    // A quarter turn: cos = 0, sin = 1.
    let trig = Trigonometry { cos_angle: 0, sin_angle: ONE, cot_half_fov: ONE };
    u.calc_matrices(&trig);
    assert_eq!(u.model_matrix.x_axis, Vec4::new(0, 0, ONE, 0));
    assert_eq!(u.model_matrix.y_axis, Vec4::new(0, ONE, 0, 0));
    assert_eq!(u.model_matrix.z_axis, Vec4::new(-ONE, 0, 0, 0));
    assert_eq!(u.model_matrix.w_axis, Vec4::new(0, 0, fx(-2.0), ONE));
    assert_eq!(u.normal_matrix.x_axis, Vec4::new(0, 0, ONE, fx(2.0)));
    assert_eq!(u.normal_matrix.y_axis, Vec4::new(0, ONE, 0, 0));
    assert_eq!(u.normal_matrix.z_axis, Vec4::new(-ONE, 0, 0, 0));
    assert_eq!(u.normal_matrix.w_axis, Vec4::new(0, 0, 0, ONE));
    assert_eq!(u.view_matrix.w_axis, Vec4::new(fx(-1.0), fx(2.0), fx(-3.0), ONE));
    assert_eq!(u.view_matrix.x_axis, Vec4::new(ONE, 0, 0, 0));
    assert_eq!(u.projection_matrix, Mat4::identity());
    // The model matrix turns the x axis into the z axis and moves it back.
    let moved = u.model_matrix.mul_vec4(Vec4::new(ONE, 0, 0, ONE));
    assert_eq!(moved, Vec4::new(0, 0, fx(-1.0), ONE));
    // The normal matrix turns a direction the same way.
    let turned = u.normal_matrix.mul_vec4(Vec4::new(ONE, 0, 0, 0));
    assert_eq!(turned.truncate(), v3(0.0, 0.0, 1.0));
}

#[test]
fn matrices_keep_the_other_fields() {
    let mut u = uniform();
    u.light.intensity = v3(1.0, 2.0, 3.0);
    u.material.shininess = fx(8.0);
    let before = u;
    let trig = Trigonometry { cos_angle: ONE, sin_angle: 0, cot_half_fov: ONE };
    u.calc_model_matrix(&trig);
    u.calc_view_matrix();
    assert_eq!(u, before);
}

#[test]
fn matrix_transform_applies_model_view_and_projection() {
    let mut u = uniform();
    u.transform = Transform { angle: 0, distance: fx(2.0) };
    u.camera.position = v3(1.0, 0.0, 0.0);
    let trig = Trigonometry { cos_angle: 0, sin_angle: ONE, cot_half_fov: ONE };
    u.calc_matrices(&trig);
    let va = VertexAttributes::new(v3(1.0, 0.5, 0.0), v3(1.0, 0.0, 0.0));
    let out = MatrixTransform.transform(va, &u);
    assert_eq!(out.frag_pos, v3(0.0, 0.5, -1.0));
    assert_eq!(out.position, Vec4::new(fx(-1.0), fx(0.5), fx(-1.0), ONE));
    assert_eq!(out.normal, v3(0.0, 0.0, 1.0));
}

#[test]
fn flat_colour_ignores_the_scene() {
    let va = VertexAttributes {
        position: Vec4::new(1, 2, 3, 4),
        normal: Vec3::new(5, 6, 7),
        frag_pos: Vec3::new(8, 9, 10),
    };
    let stage = FlatColor { color: Vec4::new(11, 12, 13, 14) };
    let f = stage.shade(va, &uniform());
    assert_eq!(f.color, Vec4::new(11, 12, 13, 14));
    assert_eq!(f.position, Vec3::new(1, 2, 3));
    assert_eq!(f.normal, Vec3::new(5, 6, 7));
}

#[test]
fn phong_lighting_head_on() {
    let mut u = uniform();
    u.light = Light { position: v3(0.0, 0.0, -2.0), intensity: v3(2.0, 2.0, 2.0) };
    u.material = Material {
        ambient_color: v3(1.0, 1.0, 1.0),
        diffuse_color: v3(0.5, 0.25, 0.0),
        specular_color: v3(0.25, 0.25, 0.25),
        shininess: fx(8.0),
    };
    let va = VertexAttributes {
        position: Vec4::new(fx(0.25), fx(0.5), fx(0.75), ONE),
        normal: v3(0.0, 0.0, -1.0),
        frag_pos: v3(0.0, 0.0, 0.0),
    };
    let f = PhongLighting.shade(va, &u);
    // Light, viewer and normal are in line: both terms are at their
    // largest, and the light is two units away.
    assert_eq!(f.color, Vec4::new(fx(0.375), fx(0.25), fx(0.125), ONE));
    assert_eq!(f.position, v3(0.25, 0.5, 0.75));
    assert_eq!(f.normal, v3(0.0, 0.0, -1.0));
}

#[test]
fn phong_lighting_from_behind_is_dark() {
    let mut u = uniform();
    u.light = Light { position: v3(0.0, 0.0, 2.0), intensity: v3(2.0, 2.0, 2.0) };
    u.material = Material {
        ambient_color: v3(1.0, 1.0, 1.0),
        diffuse_color: v3(0.5, 0.25, 0.0),
        specular_color: v3(0.25, 0.25, 0.25),
        shininess: fx(8.0),
    };
    let va = VertexAttributes::new(v3(0.0, 0.0, 0.0), v3(0.0, 0.0, -1.0));
    let f = PhongLighting.shade(va, &u);
    assert_eq!(f.color, Vec4::new(0, 0, 0, ONE));
}

#[test]
fn phong_highlight_falls_with_the_exponent() {
    let mut u = uniform();
    u.camera.is_perspective = true;
    u.camera.position = v3(2.0, 0.0, -2.0);
    u.light = Light { position: v3(0.0, 0.0, -1.0), intensity: v3(1.0, 1.0, 1.0) };
    u.material = Material {
        ambient_color: v3(0.0, 0.0, 0.0),
        diffuse_color: v3(0.0, 0.0, 0.0),
        specular_color: v3(1.0, 1.0, 1.0),
        shininess: 0,
    };
    let va = VertexAttributes::new(v3(0.0, 0.0, 0.0), v3(0.0, 0.0, -1.0));
    let flat = PhongLighting.shade(va, &u).color.x;
    u.material.shininess = fx(1.0);
    let one = PhongLighting.shade(va, &u).color.x;
    u.material.shininess = fx(2.9);
    let two = PhongLighting.shade(va, &u).color.x;
    assert_eq!(flat, ONE);
    assert!(0 < two && two < one && one < flat);
    assert_eq!(two, multiply(one, one));
}

#[test]
fn phong_light_at_the_fragment_saturates() {
    let mut u = uniform();
    u.light = Light { position: v3(0.0, 0.0, 0.0), intensity: v3(1.0, 1.0, 1.0) };
    u.material.specular_color = v3(1.0, 0.0, 0.0);
    let va = VertexAttributes::new(v3(0.0, 0.0, 0.0), v3(0.0, 0.0, -1.0));
    let f = PhongLighting.shade(va, &u);
    assert_eq!(f.color, Vec4::new(i32::MAX, 0, 0, ONE));
}

#[test]
fn blending_keeps_the_nearer_cell() {
    let previous = FrameBufferAttributes { color: PackedColor { r: 10, g: 20, b: 30, a: 40 }, depth: fx(0.5) };
    let fragment = FragmentAttributes::new(
        Vec4::new(ONE, 0, 0, ONE),
        v3(0.0, 0.0, 0.5),
        v3(0.0, 0.0, 1.0),
    );
    assert_eq!(DepthTestedBlend.blend(fragment, previous), previous);
    let behind = FragmentAttributes::new(Vec4::new(ONE, 0, 0, ONE), v3(0.0, 0.0, 0.75), v3(0.0, 0.0, 1.0));
    assert_eq!(DepthTestedBlend.blend(behind, previous), previous);
    let front = FragmentAttributes::new(Vec4::new(ONE, 0, 0, ONE), v3(0.0, 0.0, 0.25), v3(0.0, 0.0, 1.0));
    assert_eq!(
        DepthTestedBlend.blend(front, previous),
        FrameBufferAttributes { color: PackedColor { r: 255, g: 0, b: 0, a: 255 }, depth: fx(0.25) }
    );
}

#[test]
fn blending_composites_by_alpha() {
    let white = FrameBufferAttributes::new();
    let half_red = FragmentAttributes::new(Vec4::new(ONE, 0, 0, HALF), v3(0.0, 0.0, 0.0), v3(0.0, 0.0, 1.0));
    assert_eq!(
        DepthTestedBlend.blend(half_red, white),
        FrameBufferAttributes { color: PackedColor { r: 255, g: 127, b: 127, a: 191 }, depth: 0 }
    );
    let previous = FrameBufferAttributes { color: PackedColor { r: 10, g: 20, b: 30, a: 40 }, depth: fx(0.5) };
    let clear = FragmentAttributes::new(Vec4::new(ONE, ONE, ONE, 0), v3(0.0, 0.0, 0.0), v3(0.0, 0.0, 1.0));
    assert_eq!(
        DepthTestedBlend.blend(clear, previous),
        FrameBufferAttributes { color: previous.color, depth: 0 }
    );
    let bright = FragmentAttributes::new(Vec4::new(fx(3.0), fx(-1.0), 0, ONE), v3(0.0, 0.0, 0.0), v3(0.0, 0.0, 1.0));
    assert_eq!(DepthTestedBlend.blend(bright, previous).color, PackedColor { r: 255, g: 0, b: 0, a: 255 });
}

#[test]
fn mesh_pairs_positions_with_normals() {
    let mesh = Mesh {
        positions: vec![v3(1.0, 2.0, 3.0), v3(4.0, 5.0, 6.0)],
        normals: vec![v3(0.0, 0.0, 1.0), v3(0.0, 1.0, 0.0), v3(1.0, 0.0, 0.0)],
        texcoords: vec![],
        indices: vec![0, 1, 0],
        num_face_indices: vec![3],
        material_id: None,
    };
    let vertices = mesh.as_vertex_attrs().unwrap();
    assert_eq!(
        vertices,
        vec![
            VertexAttributes::new(v3(1.0, 2.0, 3.0), v3(0.0, 0.0, 1.0)),
            VertexAttributes::new(v3(4.0, 5.0, 6.0), v3(0.0, 1.0, 0.0)),
        ]
    );
    let short = Mesh { normals: vec![v3(0.0, 0.0, 1.0)], ..mesh };
    assert_eq!(short.as_vertex_attrs(), Err(RasterError::IndexOutOfRange));
}

#[test]
fn rendered_image_has_the_size_and_the_colours_of_the_buffer() {
    let mut fb = FrameBuffer::new(3, 2);
    fb.set(1, 0, FrameBufferAttributes { color: PackedColor { r: 9, g: 8, b: 7, a: 6 }, depth: 0 });
    let img = fb.render();
    assert_eq!(img.dimensions(), (3, 2));
    let raw = img.into_raw();
    assert_eq!(raw, fb.as_raw());
    assert_eq!(&raw[4..8], &[9, 8, 7, 6]);
    assert_eq!(FrameBuffer::new(0, 0).render().dimensions(), (0, 0));
}

#[test]
fn loaded_mesh_is_grouped_into_vectors() {
    let flat = lucien::graphics::primitives::FlatMesh {
        positions: vec![1, 2, 3, 4, 5, 6],
        normals: vec![7, 8, 9, 10],
        texcoords: vec![11, 12, 13, 14, 15],
        indices: vec![0, 1, 0],
        num_face_indices: vec![3],
        material_id: Some(2),
    };
    let mesh = Mesh::from_obj(&flat);
    assert_eq!(mesh.positions, vec![Vec3::new(1, 2, 3), Vec3::new(2, 3, 4)]);
    assert_eq!(mesh.normals, vec![Vec3::new(7, 8, 9), Vec3::new(8, 9, 10)]);
    assert_eq!(mesh.texcoords, vec![Vec2::new(11, 12), Vec2::new(12, 13)]);
    assert_eq!(mesh.indices, vec![0usize, 1, 0]);
    assert_eq!(mesh.num_face_indices, vec![3]);
    assert_eq!(mesh.material_id, Some(2));
    let empty = lucien::graphics::primitives::FlatMesh {
        positions: vec![1, 2],
        normals: vec![],
        texcoords: vec![],
        indices: vec![],
        num_face_indices: vec![],
        material_id: None,
    };
    assert!(Mesh::from_obj(&empty).positions.is_empty());
}

#[test]
fn loaded_material_keeps_its_colours() {
    let flat = lucien::graphics::primitives::FlatMaterial {
        ambient: [1, 2, 3],
        diffuse: [4, 5, 6],
        specular: [7, 8, 9],
        shininess: 10,
    };
    assert_eq!(
        Material::from_obj(&flat),
        Material {
            ambient_color: Vec3::new(1, 2, 3),
            diffuse_color: Vec3::new(4, 5, 6),
            specular_color: Vec3::new(7, 8, 9),
            shininess: 10,
        }
    );
}

#[test]
fn turntable_turns_and_approaches_frame_by_frame() {
    let mut t = Transform { angle: fx(0.5), distance: fx(2.0) };
    t.advance();
    assert_eq!(t, Transform { angle: fx(0.5) + 6553, distance: fx(2.0) - 1310 });
    for _ in 1..lucien::graphics::primitives::TURNTABLE_FRAMES {
        t.advance();
    }
    assert_eq!(t, Transform { angle: fx(0.5) + 20 * 6553, distance: fx(2.0) - 20 * 1310 });
    assert_eq!(lucien::graphics::primitives::TURNTABLE_DELAY, 75);
    let mut edge = Transform { angle: i32::MAX, distance: i32::MIN };
    edge.advance();
    assert_eq!(edge, Transform { angle: i32::MAX, distance: i32::MIN });
}
