use trs_24::camera::Camera;
use trs_24::commands::{DrawMode, RenderCommand, TexFormat};
use trs_24::renderer::{placement_quat, Renderer};
use trs_24::shape::ShapeBuilder;
use trs_24::text::{Character, TextBuilder};
use trs_24::types;
use trs_24::types::{RotAxis, Shape, RGBA, Vec3};
use trs_24::ui::Element;

fn color(r: f32, g: f32, b: f32, a: f32) -> RGBA {
    RGBA { r: r.to_bits(), g: g.to_bits(), b: b.to_bits(), a: a.to_bits() }
}

fn square_instance(is_hud: bool) -> ShapeBuilder {
    let descriptor = ShapeBuilder::new(Shape::Square);
    let (instance, _setup) = ShapeBuilder::new_instance(
        &descriptor,
        is_hud,
        &color(0.5, 0.0, 1.0, 0.4),
        [0, 0, 0],
        [1.0f32.to_bits(), 1.0f32.to_bits(), 1.0f32.to_bits()],
        [0, 0, 0, 1.0f32.to_bits()],
        11,
        12,
        13,
    );
    instance
}

#[test]
fn element_builder_setters_chain() {
    let e = Element::new(types::Element::Shape(ShapeBuilder::new(Shape::Square)))
        .set_color(color(0.5, 0.0, 1.0, 0.4))
        .set_position(Vec3::new(1, 2, 3))
        .set_scale(Vec3::new(4, 5, 6))
        .set_rotation(7)
        .is_hud(true);
    assert_eq!(e.color, color(0.5, 0.0, 1.0, 0.4));
    assert_eq!(e.position, Vec3 { x: 1, y: 2, z: 3 });
    assert_eq!(e.scale, Vec3 { x: 4, y: 5, z: 6 });
    assert_eq!(e.rotation, 7);
    assert!(e.is_hud);
    // defaults of the wrapper
    let e = Element::new(types::Element::Shape(ShapeBuilder::new(Shape::Triangle)));
    assert!(!e.is_hud);
    assert_eq!(e.color, color(0.1, 0.1, 0.1, 1.0));
    assert_eq!(e.scale, Vec3 { x: 1.0f32.to_bits(), y: 1.0f32.to_bits(), z: 1.0f32.to_bits() });
}

#[test]
fn square_instance_uploads_colored_quad() {
    let descriptor = ShapeBuilder::new(Shape::Square);
    let c = color(0.5, 0.0, 1.0, 0.4);
    let (instance, setup) = ShapeBuilder::new_instance(
        &descriptor,
        false,
        &c,
        [0, 0, 0],
        [0, 0, 0],
        [0, 0, 0, 0],
        11,
        12,
        13,
    );
    assert_eq!(instance.indices, vec![0, 2, 1, 0, 3, 2]);
    let h = 0.5f32.to_bits();
    let nh = (-0.5f32).to_bits();
    let z = 0.0f32.to_bits();
    let one = 1.0f32.to_bits();
    let expected_vertices: Vec<u32> = vec![
        nh, nh, c.r, c.g, c.b, c.a, z, z, //
        nh, h, c.r, c.g, c.b, c.a, z, one, //
        h, h, c.r, c.g, c.b, c.a, one, one, //
        h, nh, c.r, c.g, c.b, c.a, one, z,
    ];
    assert!(setup.contains(&RenderCommand::ArrayBufferData(expected_vertices)));
    assert!(setup.contains(&RenderCommand::ElementBufferData(vec![0, 2, 1, 0, 3, 2])));
    // the white 1x1 luminance texture backs every shape
    assert!(setup.iter().any(|cmd| matches!(
        cmd,
        RenderCommand::TexImage2d { width: 1, height: 1, format: TexFormat::Luminance, .. }
    )));
}

#[test]
fn triangle_instance_draws_three_indices() {
    let descriptor = ShapeBuilder::new(Shape::Triangle);
    let (instance, _setup) = ShapeBuilder::new_instance(
        &descriptor,
        false,
        &color(1.0, 1.0, 1.0, 1.0),
        [0, 0, 0],
        [0, 0, 0],
        [0, 0, 0, 0],
        1,
        2,
        3,
    );
    assert_eq!(instance.indices, vec![0, 1, 2]);
    let cmds = instance.draw(9);
    assert!(cmds.contains(&RenderCommand::DrawElements { mode: DrawMode::Triangles, count: 3 }));
}

fn dummy_characters() -> Vec<Character> {
    (0..128u32)
        .map(|i| Character { texture: 100 + i, size: (8, 16), bearing: (0, 12), advance: 640 })
        .collect()
}

#[test]
fn text_draw_binds_each_glyph_in_order() {
    let descriptor = TextBuilder::new("AB".to_string(), &[1, 2, 3], 60);
    assert_eq!(descriptor.size, 60);
    assert_eq!(descriptor.font, vec![1, 2, 3]);
    let quads = vec![vec![7u32; 48], vec![8u32; 48]];
    let (instance, setup) = TextBuilder::new_instance(
        &descriptor,
        true,
        color(1.0, 1.0, 1.0, 1.0),
        [0, 0, 0],
        [0, 0, 0],
        [0, 0, 0, 0],
        dummy_characters(),
        quads,
        21,
    );
    assert!(setup.contains(&RenderCommand::AllocDynamicArrayBuffer(48)));
    let cmds = instance.draw(9);
    // 'A' is 65, 'B' is 66: their glyph textures bind in text order
    let binds: Vec<u32> = cmds
        .iter()
        .filter_map(|c| match c {
            RenderCommand::BindTexture(t) if *t >= 100 => Some(*t),
            _ => None,
        })
        .collect();
    assert_eq!(binds, vec![165, 166]);
    let streams: Vec<&RenderCommand> = cmds
        .iter()
        .filter(|c| matches!(c, RenderCommand::ArrayBufferSubData(_)))
        .collect();
    assert_eq!(streams.len(), 2);
    assert_eq!(streams[0], &RenderCommand::ArrayBufferSubData(vec![7u32; 48]));
    assert_eq!(streams[1], &RenderCommand::ArrayBufferSubData(vec![8u32; 48]));
    let draws = cmds
        .iter()
        .filter(|c| matches!(c, RenderCommand::DrawArrays { mode: DrawMode::Triangles, first: 0, count: 6 }))
        .count();
    assert_eq!(draws, 2);
}

#[test]
fn placement_quat_matches_reference_arithmetic() {
    let angle = -26.0f32;
    let q = placement_quat(angle.to_bits(), &RotAxis::Roll);
    let expected = nalgebra_glm::quat_angle_axis(angle, &nalgebra_glm::vec3(0.0f32, 1.0, 0.0));
    let expected_bits: Vec<u32> = expected.coords.as_slice().iter().map(|x| x.to_bits()).collect();
    assert_eq!(q.to_vec(), expected_bits);
    let q = placement_quat(angle.to_bits(), &RotAxis::Pitch);
    let expected = nalgebra_glm::quat_angle_axis(angle, &nalgebra_glm::vec3(1.0f32, 0.0, 0.0));
    let expected_bits: Vec<u32> = expected.coords.as_slice().iter().map(|x| x.to_bits()).collect();
    assert_eq!(q.to_vec(), expected_bits);
    let q = placement_quat(angle.to_bits(), &RotAxis::Yaw);
    let expected = nalgebra_glm::quat_angle_axis(angle, &nalgebra_glm::vec3(0.0f32, 0.0, 1.0));
    let expected_bits: Vec<u32> = expected.coords.as_slice().iter().map(|x| x.to_bits()).collect();
    assert_eq!(q.to_vec(), expected_bits);
}

#[test]
fn hud_element_selects_orthographic_projection() {
    let camera = Camera::new(960.0f32.to_bits(), 640.0f32.to_bits());
    let (renderer, _setup) = Renderer::new(
        3,
        4,
        vec![],
        vec![types::Element::Shape(square_instance(true))],
    );
    let cmds = renderer.draw(&color(0.1, 0.1, 0.1, 1.0), &camera);
    // the camera upload on the UI program carries the orthographic matrix
    let ortho = nalgebra_glm::ortho(-1.0f32, 1.0, -1.0, 1.0, -1.0, 1.0);
    let ortho_bits: Vec<u32> = ortho.as_slice().iter().map(|x| x.to_bits()).collect();
    let ui_matrix = cmds
        .iter()
        .find_map(|c| match c {
            RenderCommand::SetCamMatrix { program: 4, matrix } => Some(matrix.to_vec()),
            _ => None,
        })
        .unwrap();
    assert_eq!(ui_matrix, ortho_bits);
}

#[test]
fn non_hud_element_selects_camera_perspective() {
    let camera = Camera::new(960.0f32.to_bits(), 640.0f32.to_bits());
    let (renderer, _setup) = Renderer::new(
        3,
        4,
        vec![],
        vec![types::Element::Shape(square_instance(false))],
    );
    let cmds = renderer.draw(&color(0.1, 0.1, 0.1, 1.0), &camera);
    let expected = nalgebra_glm::perspective_fov(45.0f32, 960.0, 640.0, 0.1, 100.0)
        * nalgebra_glm::look_at(
            &nalgebra_glm::vec3(0.0f32, 0.0, 3.0),
            &nalgebra_glm::vec3(0.0f32, 0.0, 2.0),
            &nalgebra_glm::vec3(0.0f32, 1.0, 0.0),
        );
    let expected_bits: Vec<u32> = expected.as_slice().iter().map(|x| x.to_bits()).collect();
    let ui_matrix = cmds
        .iter()
        .find_map(|c| match c {
            RenderCommand::SetCamMatrix { program: 4, matrix } => Some(matrix.to_vec()),
            _ => None,
        })
        .unwrap();
    assert_eq!(ui_matrix, expected_bits);
}

#[test]
fn frame_sequence_orders_world_then_ui() {
    let camera = Camera::new(960.0f32.to_bits(), 640.0f32.to_bits());
    let world_color = color(0.1, 0.2, 0.3, 1.0);
    let (renderer, setup) = Renderer::new(
        3,
        4,
        vec![],
        vec![types::Element::Shape(square_instance(true))],
    );
    assert_eq!(setup, vec![RenderCommand::EnableBlend]);
    let cmds = renderer.draw(&world_color, &camera);
    // fixed head: clear color+depth, 3D camera upload, depth test on
    assert_eq!(cmds[0], RenderCommand::ClearColor(world_color));
    assert_eq!(cmds[1], RenderCommand::Clear { color: true, depth: true });
    assert_eq!(cmds[2], RenderCommand::UseProgram(3));
    assert!(matches!(cmds[3], RenderCommand::SetCamMatrix { program: 3, .. }));
    assert_eq!(cmds[4], RenderCommand::SetDepthTest(true));
    // with no models, the UI pass follows at once: depth-only clear,
    // depth test off, then the element under its own projection
    assert_eq!(cmds[5], RenderCommand::Clear { color: false, depth: true });
    assert_eq!(cmds[6], RenderCommand::SetDepthTest(false));
    assert_eq!(cmds[7], RenderCommand::UseProgram(4));
    assert!(matches!(cmds[8], RenderCommand::SetCamMatrix { program: 4, .. }));
    // the element draw runs on the UI program
    assert_eq!(cmds[9], RenderCommand::UseProgram(4));
    assert!(cmds[10..].contains(&RenderCommand::DrawElements { mode: DrawMode::Triangles, count: 6 }));
}

#[test]
fn resize_issues_viewport_command() {
    let (renderer, _setup) = Renderer::new(3, 4, vec![], vec![]);
    assert_eq!(
        renderer.resize(800, 600),
        vec![RenderCommand::Viewport { x: 0, y: 0, width: 800, height: 600 }]
    );
}
