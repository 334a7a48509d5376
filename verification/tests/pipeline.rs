use lucien::graphics::attributes::{
    FrameBuffer, FrameBufferAttributes, PackedColor, UniformAttributes, VertexAttributes,
};
use lucien::graphics::linear::{Mat4, Vec3, Vec4};
use lucien::graphics::primitives::{
    Camera, Light, Material, PrimitiveType, RasterError, Transform,
};
use lucien::graphics::raster::{Program, Raster};
use lucien::graphics::screen::{project_vertex, ScreenLine, ScreenPoint, ScreenTriangle};
use lucien::graphics::shaders::{DepthTestedBlend, FlatColor, PassThrough};

const ONE: i32 = 65536;

fn fx(v: f64) -> i32 {
    (v * 65536.0).floor() as i32
}

fn uniform() -> UniformAttributes {
    let zero = Vec3::new(0, 0, 0);
    UniformAttributes {
        light: Light { position: zero, intensity: zero },
        material: Material {
            ambient_color: zero,
            diffuse_color: zero,
            specular_color: zero,
            shininess: 0,
        },
        camera: Camera { is_perspective: false, position: zero, field_of_view: 0, aspect_ratio: ONE },
        transform: Transform { angle: 0, distance: 0 },
        view_matrix: Mat4::identity(),
        model_matrix: Mat4::identity(),
        projection_matrix: Mat4::identity(),
        normal_matrix: Mat4::identity(),
    }
}

fn vertex(x: f64, y: f64, z: f64) -> VertexAttributes {
    VertexAttributes::new(Vec3::new(fx(x), fx(y), fx(z)), Vec3::new(0, 0, ONE))
}

fn flat(r: f64, g: f64, b: f64, a: f64) -> Program<PassThrough, FlatColor, DepthTestedBlend> {
    Program {
        vertex_shader: PassThrough,
        fragment_shader: FlatColor { color: Vec4::new(fx(r), fx(g), fx(b), fx(a)) },
        blending_shader: DepthTestedBlend,
    }
}

fn red() -> PackedColor {
    PackedColor { r: 255, g: 0, b: 0, a: 255 }
}

fn covered_pixels(fb: &FrameBuffer) -> Vec<(usize, usize)> {
    let mut out = Vec::new();
    for j in 0..fb.height() {
        for i in 0..fb.width() {
            if fb.get(i, fb.height() - 1 - j) != FrameBufferAttributes::new() {
                out.push((i, j));
            }
        }
    }
    out
}

#[test]
fn single_triangle_colours_the_centre_and_leaves_the_top_corners() {
    let n = 9;
    let mut fb = FrameBuffer::new(n, n);
    let vertices = vec![vertex(-1.0, -1.0, 0.0), vertex(1.0, -1.0, 0.0), vertex(0.0, 1.0, 0.0)];
    let program = flat(1.0, 0.0, 0.0, 1.0);
    let r = program.render(&uniform(), &vertices, &[0, 1, 2], &mut fb, PrimitiveType::Triangle);
    assert_eq!(r, Ok(()));
    assert_eq!(fb.get(n / 2, n / 2), FrameBufferAttributes { color: red(), depth: 0 });
    // Row 0 is the top of the image: the apex of the triangle is there.
    assert_eq!(fb.get(0, 0), FrameBufferAttributes::new());
    assert_eq!(fb.get(n - 1, 0), FrameBufferAttributes::new());
    // The base of the triangle spans the whole bottom row, corners included.
    assert_eq!(fb.get(0, n - 1).color, red());
    assert_eq!(fb.get(n - 1, n - 1).color, red());
}

#[test]
fn triangle_covers_exactly_the_pixels_whose_centres_it_contains() {
    let mut fb = FrameBuffer::new(4, 4);
    let vertices = vec![vertex(-1.0, -1.0, 0.0), vertex(1.0, -1.0, 0.0), vertex(-1.0, 1.0, 0.0)];
    let program = flat(1.0, 0.0, 0.0, 1.0);
    let r = program.render_triangle(&uniform(), &vertices[0], &vertices[1], &vertices[2], &mut fb);
    assert_eq!(r, Ok(()));
    // The triangle is the lower left half of the buffer, below x + y = 4;
    // centres on the diagonal count as inside.
    let mut expected = Vec::new();
    for j in 0..4 {
        for i in 0..4 {
            if i + j + 1 <= 4 {
                expected.push((i, j));
            }
        }
    }
    assert_eq!(covered_pixels(&fb), expected);
}

#[test]
fn clockwise_and_counter_clockwise_triangles_cover_the_same_pixels() {
    let vertices = vec![vertex(-1.0, -1.0, 0.0), vertex(1.0, -1.0, 0.0), vertex(0.0, 1.0, 0.0)];
    let program = flat(1.0, 0.0, 0.0, 1.0);
    let mut a = FrameBuffer::new(8, 8);
    let mut b = FrameBuffer::new(8, 8);
    assert_eq!(program.render(&uniform(), &vertices, &[0, 1, 2], &mut a, PrimitiveType::Triangle), Ok(()));
    assert_eq!(program.render(&uniform(), &vertices, &[2, 1, 0], &mut b, PrimitiveType::Triangle), Ok(()));
    assert_eq!(a.as_raw(), b.as_raw());
    assert!(!covered_pixels(&a).is_empty());
}

#[test]
fn degenerate_triangle_is_reported_and_draws_nothing() {
    let mut fb = FrameBuffer::new(8, 8);
    let vertices = vec![vertex(-1.0, -1.0, 0.0), vertex(0.0, 0.0, 0.0), vertex(1.0, 1.0, 0.0)];
    let program = flat(1.0, 0.0, 0.0, 1.0);
    let r = program.render_triangle(&uniform(), &vertices[0], &vertices[1], &vertices[2], &mut fb);
    assert_eq!(r, Err(RasterError::GeometryDegenerate));
    assert!(covered_pixels(&fb).is_empty());
    let same = [vertices[0], vertices[0], vertices[0]];
    let r = program.render_triangle(&uniform(), &same[0], &same[1], &same[2], &mut fb);
    assert_eq!(r, Err(RasterError::GeometryDegenerate));
    assert!(covered_pixels(&fb).is_empty());
}

#[test]
fn thin_triangle_with_area_draws_only_defined_cells() {
    let mut fb = FrameBuffer::new(8, 8);
    let mut sliver = vertex(1.0, 1.0, 0.0);
    sliver.position.y += 1;
    let vertices = vec![vertex(-1.0, -1.0, 0.0), vertex(0.0, 0.0, 0.0), sliver];
    let program = flat(1.0, 0.0, 0.0, 1.0);
    let r = program.render_triangle(&uniform(), &vertices[0], &vertices[1], &vertices[2], &mut fb);
    assert_eq!(r, Ok(()));
    for (i, j) in covered_pixels(&fb) {
        assert_eq!(fb.get(i, 7 - j), FrameBufferAttributes { color: red(), depth: 0 });
    }
}

#[test]
fn vertex_without_w_is_a_stage_failure() {
    let mut fb = FrameBuffer::new(8, 8);
    let mut bad = vertex(0.0, 1.0, 0.0);
    bad.position.w = 0;
    let vertices = vec![vertex(-1.0, -1.0, 0.0), vertex(1.0, -1.0, 0.0), bad];
    let program = flat(1.0, 0.0, 0.0, 1.0);
    let r = program.render(&uniform(), &vertices, &[0, 1, 2], &mut fb, PrimitiveType::Triangle);
    assert_eq!(r, Err(RasterError::ShaderStageFailure));
    assert!(covered_pixels(&fb).is_empty());
    let r = program.render(&uniform(), &vertices, &[0, 2], &mut fb, PrimitiveType::Line);
    assert_eq!(r, Err(RasterError::ShaderStageFailure));
    assert!(covered_pixels(&fb).is_empty());
}

#[test]
fn vertex_beyond_the_limit_is_a_stage_failure() {
    let mut fb = FrameBuffer::new(8, 8);
    let mut far = vertex(0.0, 1.0, 0.0);
    far.position.x = fx(9000.0);
    let vertices = vec![vertex(-1.0, -1.0, 0.0), vertex(1.0, -1.0, 0.0), far];
    let program = flat(1.0, 0.0, 0.0, 1.0);
    let r = program.render(&uniform(), &vertices, &[0, 1, 2], &mut fb, PrimitiveType::Triangle);
    assert_eq!(r, Err(RasterError::ShaderStageFailure));
    let mut near = vertex(0.0, 1.0, 0.0);
    near.position.x = fx(8000.0);
    let vertices = vec![vertex(-1.0, -1.0, 0.0), vertex(1.0, -1.0, 0.0), near];
    let r = program.render(&uniform(), &vertices, &[0, 1, 2], &mut fb, PrimitiveType::Triangle);
    assert_eq!(r, Ok(()));
}

#[test]
fn index_beyond_the_vertices_is_reported() {
    let mut fb = FrameBuffer::new(8, 8);
    let vertices = vec![vertex(-1.0, -1.0, 0.0), vertex(1.0, -1.0, 0.0), vertex(0.0, 1.0, 0.0)];
    let program = flat(1.0, 0.0, 0.0, 1.0);
    let r = program.render(&uniform(), &vertices, &[0, 1, 3], &mut fb, PrimitiveType::Triangle);
    assert_eq!(r, Err(RasterError::IndexOutOfRange));
    assert!(covered_pixels(&fb).is_empty());
    let r = program.render(&uniform(), &vertices, &[0, 7], &mut fb, PrimitiveType::Line);
    assert_eq!(r, Err(RasterError::IndexOutOfRange));
    assert!(covered_pixels(&fb).is_empty());
}

#[test]
fn first_failure_keeps_what_was_drawn_and_stops() {
    let vertices = vec![
        vertex(-1.0, -1.0, 0.0),
        vertex(1.0, -1.0, 0.0),
        vertex(0.0, 1.0, 0.0),
        vertex(-1.0, 1.0, -0.5),
        vertex(1.0, 1.0, -0.5),
    ];
    let program = flat(1.0, 0.0, 0.0, 1.0);
    let mut first_only = FrameBuffer::new(8, 8);
    assert_eq!(
        program.render(&uniform(), &vertices, &[0, 1, 2], &mut first_only, PrimitiveType::Triangle),
        Ok(())
    );
    let mut fb = FrameBuffer::new(8, 8);
    let r = program.render(
        &uniform(),
        &vertices,
        &[0, 1, 2, 0, 0, 0, 3, 4, 2],
        &mut fb,
        PrimitiveType::Triangle,
    );
    assert_eq!(r, Err(RasterError::GeometryDegenerate));
    assert_eq!(fb.as_raw(), first_only.as_raw());
}

#[test]
fn trailing_indices_that_form_no_primitive_are_ignored() {
    let vertices = vec![vertex(-1.0, -1.0, 0.0), vertex(1.0, -1.0, 0.0), vertex(0.0, 1.0, 0.0)];
    let program = flat(1.0, 0.0, 0.0, 1.0);
    let mut a = FrameBuffer::new(8, 8);
    let mut b = FrameBuffer::new(8, 8);
    assert_eq!(program.render(&uniform(), &vertices, &[0, 1, 2], &mut a, PrimitiveType::Triangle), Ok(()));
    assert_eq!(
        program.render(&uniform(), &vertices, &[0, 1, 2, 9, 9], &mut b, PrimitiveType::Triangle),
        Ok(())
    );
    assert_eq!(a.as_raw(), b.as_raw());
}

#[test]
fn farther_triangle_leaves_the_nearer_colour() {
    let vertices = vec![
        vertex(-1.0, -1.0, 0.0),
        vertex(1.0, -1.0, 0.0),
        vertex(0.0, 1.0, 0.0),
        vertex(-1.0, -1.0, 0.5),
        vertex(1.0, -1.0, 0.5),
        vertex(0.0, 1.0, 0.5),
    ];
    let near = flat(1.0, 0.0, 0.0, 1.0);
    let far = flat(0.0, 0.0, 1.0, 1.0);
    let mut fb = FrameBuffer::new(9, 9);
    assert_eq!(near.render(&uniform(), &vertices, &[0, 1, 2], &mut fb, PrimitiveType::Triangle), Ok(()));
    let after_near = fb.as_raw();
    let drawn = covered_pixels(&fb);
    assert_eq!(far.render(&uniform(), &vertices, &[3, 4, 5], &mut fb, PrimitiveType::Triangle), Ok(()));
    assert_eq!(fb.as_raw(), after_near);
    for (i, j) in drawn {
        assert_eq!(fb.get(i, 8 - j), FrameBufferAttributes { color: red(), depth: 0 });
    }
}

#[test]
fn nearer_triangle_replaces_the_farther_colour() {
    let vertices = vec![
        vertex(-1.0, -1.0, 0.5),
        vertex(1.0, -1.0, 0.5),
        vertex(0.0, 1.0, 0.5),
        vertex(-1.0, -1.0, 0.0),
        vertex(1.0, -1.0, 0.0),
        vertex(0.0, 1.0, 0.0),
    ];
    let far = flat(0.0, 0.0, 1.0, 1.0);
    let near = flat(1.0, 0.0, 0.0, 1.0);
    let mut fb = FrameBuffer::new(9, 9);
    assert_eq!(far.render(&uniform(), &vertices, &[0, 1, 2], &mut fb, PrimitiveType::Triangle), Ok(()));
    assert_eq!(fb.get(4, 4).color, PackedColor { r: 0, g: 0, b: 255, a: 255 });
    assert_eq!(fb.get(4, 4).depth, fx(0.5));
    assert_eq!(near.render(&uniform(), &vertices, &[3, 4, 5], &mut fb, PrimitiveType::Triangle), Ok(()));
    assert_eq!(fb.get(4, 4), FrameBufferAttributes { color: red(), depth: 0 });
}

#[test]
fn depth_outside_the_unit_range_is_not_drawn() {
    let vertices = vec![
        vertex(-1.0, -1.0, 1.5),
        vertex(1.0, -1.0, 1.5),
        vertex(0.0, 1.0, 1.5),
        vertex(-1.0, -1.0, -1.5),
        vertex(1.0, -1.0, -1.5),
        vertex(0.0, 1.0, -1.5),
    ];
    let program = flat(1.0, 0.0, 0.0, 1.0);
    let mut fb = FrameBuffer::new(9, 9);
    assert_eq!(
        program.render(&uniform(), &vertices, &[0, 1, 2, 3, 4, 5], &mut fb, PrimitiveType::Triangle),
        Ok(())
    );
    assert!(covered_pixels(&fb).is_empty());
}

#[test]
fn clear_resets_every_cell_and_an_empty_render_keeps_them() {
    let vertices = vec![vertex(-1.0, -1.0, 0.0), vertex(1.0, -1.0, 0.0), vertex(0.0, 1.0, 0.0)];
    let program = flat(1.0, 0.0, 0.0, 1.0);
    let mut fb = FrameBuffer::new(6, 5);
    assert_eq!(program.render(&uniform(), &vertices, &[0, 1, 2], &mut fb, PrimitiveType::Triangle), Ok(()));
    assert!(!covered_pixels(&fb).is_empty());
    fb.clear();
    assert_eq!(fb.width(), 6);
    assert_eq!(fb.height(), 5);
    let white = FrameBufferAttributes { color: PackedColor { r: 255, g: 255, b: 255, a: 255 }, depth: 100 * ONE };
    for y in 0..5 {
        for x in 0..6 {
            assert_eq!(fb.get(x, y), white);
        }
    }
    assert_eq!(program.render(&uniform(), &vertices, &[], &mut fb, PrimitiveType::Triangle), Ok(()));
    assert_eq!(program.render(&uniform(), &vertices, &[], &mut fb, PrimitiveType::Line), Ok(()));
    for y in 0..5 {
        for x in 0..6 {
            assert_eq!(fb.get(x, y), white);
        }
    }
}

#[test]
fn zero_length_line_is_a_disc() {
    let n = 9;
    let mut fb = FrameBuffer::new(n, n);
    let v = vertex(0.0, 0.0, 0.0);
    let program = flat(1.0, 0.0, 0.0, 1.0);
    let thickness = fx(2.0);
    assert_eq!(program.render_line(&uniform(), &v, &v, thickness, &mut fb), Ok(()));
    let mut expected = Vec::new();
    for j in 0..n {
        for i in 0..n {
            let dx = i as f64 + 0.5 - 4.5;
            let dy = j as f64 + 0.5 - 4.5;
            if dx * dx + dy * dy < 4.0 {
                expected.push((i, j));
            }
        }
    }
    assert_eq!(expected.len(), 9);
    assert_eq!(covered_pixels(&fb), expected);
}

#[test]
fn horizontal_line_covers_the_rows_within_its_thickness() {
    let mut fb = FrameBuffer::new(8, 8);
    let a = vertex(-1.0, 0.0, 0.0);
    let b = vertex(1.0, 0.0, 0.0);
    let program = flat(1.0, 0.0, 0.0, 1.0);
    assert_eq!(program.render_line(&uniform(), &a, &b, fx(1.0), &mut fb), Ok(()));
    // The segment runs along y = 4; the centres of rows 3 and 4 are half a
    // pixel away from it.
    let mut expected = Vec::new();
    for j in 3..5 {
        for i in 0..8 {
            expected.push((i, j));
        }
    }
    assert_eq!(covered_pixels(&fb), expected);
}

#[test]
fn render_draws_lines_half_a_pixel_thick() {
    let vertices = vec![vertex(-1.0, 0.125, 0.0), vertex(1.0, 0.125, 0.0)];
    let program = flat(1.0, 0.0, 0.0, 1.0);
    let mut fb = FrameBuffer::new(8, 8);
    assert_eq!(program.render(&uniform(), &vertices, &[0, 1], &mut fb, PrimitiveType::Line), Ok(()));
    // The segment runs along y = 4.5, through the centres of row 4.
    let expected: Vec<(usize, usize)> = (0..8).map(|i| (i, 4)).collect();
    assert_eq!(covered_pixels(&fb), expected);
    let mut by_hand = FrameBuffer::new(8, 8);
    assert_eq!(
        program.render_lines(&uniform(), &vertices, &[0, 1], 32768, &mut by_hand),
        Ok(())
    );
    assert_eq!(fb.as_raw(), by_hand.as_raw());
}

#[test]
fn line_without_thickness_draws_nothing() {
    let a = vertex(-1.0, 0.0, 0.0);
    let b = vertex(1.0, 0.0, 0.0);
    let program = flat(1.0, 0.0, 0.0, 1.0);
    let mut fb = FrameBuffer::new(8, 8);
    assert_eq!(program.render_line(&uniform(), &a, &b, 0, &mut fb), Ok(()));
    assert_eq!(program.render_line(&uniform(), &a, &b, -ONE, &mut fb), Ok(()));
    assert!(covered_pixels(&fb).is_empty());
}

#[test]
fn empty_buffer_accepts_any_render() {
    let vertices = vec![vertex(-1.0, -1.0, 0.0), vertex(1.0, -1.0, 0.0), vertex(0.0, 1.0, 0.0)];
    let program = flat(1.0, 0.0, 0.0, 1.0);
    let mut fb = FrameBuffer::new(0, 0);
    assert_eq!(
        program.render(&uniform(), &vertices, &[0, 1, 2], &mut fb, PrimitiveType::Triangle),
        Err(RasterError::GeometryDegenerate)
    );
    assert_eq!(program.render(&uniform(), &vertices, &[0, 1], &mut fb, PrimitiveType::Line), Ok(()));
    assert_eq!(fb.as_raw(), Vec::<u8>::new());
}

#[test]
fn vertex_stage_runs_over_every_vertex() {
    let vertices = vec![vertex(-1.0, -1.0, 0.0), vertex(1.0, -1.0, 0.0)];
    let program = flat(1.0, 0.0, 0.0, 1.0);
    assert_eq!(program.transform_vertices(&uniform(), &vertices), vertices);
}

#[test]
fn projection_maps_the_unit_square_onto_the_buffer() {
    let p = project_vertex(&vertex(-1.0, -1.0, 0.0), 8, 4).unwrap();
    assert_eq!(p, ScreenPoint { x: 0, y: 0 });
    let p = project_vertex(&vertex(1.0, 1.0, 0.0), 8, 4).unwrap();
    assert_eq!(p, ScreenPoint { x: 8 * 65536, y: 4 * 65536 });
    let p = project_vertex(&vertex(0.0, 0.5, 0.0), 8, 4).unwrap();
    assert_eq!(p, ScreenPoint { x: 4 * 65536, y: 3 * 65536 });
    // The division by w comes first.
    let mut v = vertex(1.0, -1.0, 0.0);
    v.position.w = fx(2.0);
    let p = project_vertex(&v, 8, 4).unwrap();
    assert_eq!(p, ScreenPoint { x: 6 * 65536, y: 65536 });
    v.position.w = 0;
    assert_eq!(project_vertex(&v, 8, 4), None);
    v.position.w = 1;
    assert_eq!(project_vertex(&v, 8, 4), None);
    let mut deep = vertex(0.0, 0.0, 0.0);
    deep.position.z = fx(8192.5);
    assert_eq!(project_vertex(&deep, 8, 4), None);
    deep.position.z = fx(8192.0);
    assert!(project_vertex(&deep, 8, 4).is_some());
}

#[test]
fn barycentric_weights_at_pixel_centres() {
    let px = |v: i64| v * 65536;
    let t = ScreenTriangle {
        a: ScreenPoint { x: px(0), y: px(0) },
        b: ScreenPoint { x: px(4), y: px(0) },
        c: ScreenPoint { x: px(0), y: px(4) },
    };
    let area = t.area();
    assert_eq!(area, 16 * 65536 * 65536);
    // The centre of pixel (0, 0) is (0.5, 0.5): weights 3/4, 1/8, 1/8.
    let k = t.weights_at(0, 0, area).unwrap();
    assert_eq!((k.alpha, k.beta, k.gamma), (49152, 8192, 8192));
    // The centre of pixel (1, 2) is (1.5, 2.5), on the far edge.
    let k = t.weights_at(1, 2, area).unwrap();
    assert_eq!((k.alpha, k.beta, k.gamma), (0, 24576, 40960));
    assert!(t.weights_at(2, 2, area).is_none());
    let bounds = t.bounding_box(8, 8);
    assert_eq!((bounds.x_start, bounds.x_end, bounds.y_start, bounds.y_end), (0, 5, 0, 5));
    let bounds = t.bounding_box(3, 2);
    assert_eq!((bounds.x_start, bounds.x_end, bounds.y_start, bounds.y_end), (0, 3, 0, 2));
    let flipped = ScreenTriangle { a: t.b, b: t.a, c: t.c };
    let area = flipped.area();
    assert_eq!(area, -16 * 65536 * 65536);
    let k = flipped.weights_at(0, 0, area).unwrap();
    assert_eq!((k.alpha, k.beta, k.gamma), (8192, 49152, 8192));
}

#[test]
fn line_weights_follow_the_nearest_point() {
    let px = |v: i64| v * 65536;
    let l = ScreenLine {
        a: ScreenPoint { x: px(0), y: px(2) },
        b: ScreenPoint { x: px(8), y: px(2) },
    };
    let length = l.length();
    assert_eq!(length, 64 * 65536 * 65536);
    // The centre of pixel (1, 2) is (1.5, 2.5): nearest at 1.5/8 of the way.
    let k = l.weights_at(1, 2, 65536, length).unwrap();
    assert_eq!((k.alpha, k.beta, k.gamma), (65536 - 12288, 12288, 0));
    assert!(l.weights_at(1, 2, 32768, length).is_none());
    assert!(l.weights_at(1, 3, 65536, length).is_none());
    let bounds = l.bounding_box(65536, 6, 6);
    assert_eq!((bounds.x_start, bounds.x_end, bounds.y_start, bounds.y_end), (0, 6, 1, 4));
}

#[test]
fn line_interpolates_between_its_ends() {
    let a = vertex(-1.0, 0.0, -0.5);
    let b = vertex(1.0, 0.0, 0.5);
    let program = flat(1.0, 0.0, 0.0, 1.0);
    let mut fb = FrameBuffer::new(8, 8);
    assert_eq!(program.render_line(&uniform(), &a, &b, fx(1.0), &mut fb), Ok(()));
    // Depth runs from -0.5 to 0.5 along the line: at the centre of pixel i
    // it is (i + 0.5) / 8 - 0.5.
    for i in 0..8 {
        assert_eq!(fb.get(i, 4).depth, fx((i as f64 + 0.5) / 8.0 - 0.5));
    }
}

#[test]
fn centres_on_a_shared_edge_belong_to_both_triangles() {
    let vertices = vec![
        vertex(-1.0, -1.0, 0.0),
        vertex(1.0, -1.0, 0.0),
        vertex(-1.0, 1.0, 0.0),
        vertex(1.0, 1.0, 0.0),
    ];
    let program = flat(1.0, 0.0, 0.0, 1.0);
    let mut lower = FrameBuffer::new(4, 4);
    let mut upper = FrameBuffer::new(4, 4);
    assert_eq!(program.render(&uniform(), &vertices, &[0, 1, 2], &mut lower, PrimitiveType::Triangle), Ok(()));
    assert_eq!(program.render(&uniform(), &vertices, &[1, 3, 2], &mut upper, PrimitiveType::Triangle), Ok(()));
    let lower = covered_pixels(&lower);
    let upper = covered_pixels(&upper);
    let both: Vec<(usize, usize)> = lower.iter().copied().filter(|p| upper.contains(p)).collect();
    assert_eq!(both, vec![(3, 0), (2, 1), (1, 2), (0, 3)]);
    assert_eq!(lower.len() + upper.len(), 16 + 4);
}
