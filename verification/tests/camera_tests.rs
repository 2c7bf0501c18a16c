use trs_24::camera::{Camera, ProjectionType, F32_RAD_175_DEG, F32_RAD_5_DEG};
use trs_24::commands::RenderCommand;

fn bits3(v: [f32; 3]) -> [u32; 3] {
    [v[0].to_bits(), v[1].to_bits(), v[2].to_bits()]
}

fn floats3(v: [u32; 3]) -> nalgebra_glm::Vec3 {
    nalgebra_glm::vec3(f32::from_bits(v[0]), f32::from_bits(v[1]), f32::from_bits(v[2]))
}

fn fresh_camera() -> Camera {
    Camera::new(960.0f32.to_bits(), 640.0f32.to_bits())
}

#[test]
fn camera_new_defaults() {
    let c = fresh_camera();
    assert_eq!(c.width, 960.0f32.to_bits());
    assert_eq!(c.height, 640.0f32.to_bits());
    assert_eq!(c.position, bits3([0.0, 0.0, 3.0]));
    assert_eq!(c.orientation, bits3([0.0, 0.0, -1.0]));
    assert_eq!(c.up, bits3([0.0, 1.0, 0.0]));
    assert_eq!(c.speed, 0.25f32.to_bits());
    assert_eq!(c.sensitivity, 0.01f32.to_bits());
    assert!(c.first_click);
}

#[test]
fn adjust_perspective_uploads_projection_times_view() {
    let c = fresh_camera();
    let cmds = c.adjust(
        5,
        ProjectionType::Perspective,
        45.0f32.to_bits(),
        0.1f32.to_bits(),
        100.0f32.to_bits(),
    );
    assert_eq!(cmds.len(), 2);
    assert_eq!(cmds[0], RenderCommand::UseProgram(5));
    let expected = nalgebra_glm::perspective_fov(45.0f32, 960.0, 640.0, 0.1, 100.0)
        * nalgebra_glm::look_at(
            &nalgebra_glm::vec3(0.0f32, 0.0, 3.0),
            &nalgebra_glm::vec3(0.0f32, 0.0, 2.0),
            &nalgebra_glm::vec3(0.0f32, 1.0, 0.0),
        );
    let expected_bits: Vec<u32> = expected.as_slice().iter().map(|x| x.to_bits()).collect();
    match &cmds[1] {
        RenderCommand::SetCamMatrix { program, matrix } => {
            assert_eq!(*program, 5);
            assert_eq!(matrix.to_vec(), expected_bits);
        },
        other => panic!("expected a camera matrix upload, got {:?}", other),
    }
}

#[test]
fn adjust_orthographic_ignores_camera_state() {
    let mut far_away = fresh_camera();
    far_away.position = bits3([100.0, -3.0, 9.0]);
    far_away.orientation = bits3([0.5, 0.5, 0.0]);
    let home = fresh_camera();
    let args = (45.0f32.to_bits(), 0.1f32.to_bits(), 100.0f32.to_bits());
    let a = far_away.adjust(5, ProjectionType::Orthographic, args.0, args.1, args.2);
    let b = home.adjust(5, ProjectionType::Orthographic, args.0, args.1, args.2);
    assert_eq!(a, b);
    let expected = nalgebra_glm::ortho(-1.0f32, 1.0, -1.0, 1.0, -1.0, 1.0);
    let expected_bits: Vec<u32> = expected.as_slice().iter().map(|x| x.to_bits()).collect();
    match &a[1] {
        RenderCommand::SetCamMatrix { matrix, .. } => {
            assert_eq!(matrix.to_vec(), expected_bits);
        },
        other => panic!("expected a camera matrix upload, got {:?}", other),
    }
}

#[test]
fn movement_matches_reference_arithmetic() {
    let mut c = fresh_camera();
    c.move_forward();
    let expected = nalgebra_glm::vec3(0.0f32, 0.0, 3.0) + 0.25f32 * nalgebra_glm::vec3(0.0f32, 0.0, -1.0);
    assert_eq!(floats3(c.position), expected);

    let mut c = fresh_camera();
    c.move_back();
    let expected = nalgebra_glm::vec3(0.0f32, 0.0, 3.0) - 0.25f32 * nalgebra_glm::vec3(0.0f32, 0.0, -1.0);
    assert_eq!(floats3(c.position), expected);

    let orientation = nalgebra_glm::vec3(0.0f32, 0.0, -1.0);
    let up = nalgebra_glm::vec3(0.0f32, 1.0, 0.0);
    let right = nalgebra_glm::normalize(&nalgebra_glm::cross(&orientation, &up));

    let mut c = fresh_camera();
    c.move_right();
    let expected = nalgebra_glm::vec3(0.0f32, 0.0, 3.0) + 0.25f32 * right;
    assert_eq!(floats3(c.position), expected);

    let mut c = fresh_camera();
    c.move_left();
    let expected = nalgebra_glm::vec3(0.0f32, 0.0, 3.0) + 0.25f32 * -right;
    assert_eq!(floats3(c.position), expected);

    let mut c = fresh_camera();
    c.move_up();
    assert_eq!(floats3(c.position), nalgebra_glm::vec3(0.0f32, 0.25, 3.0));

    let mut c = fresh_camera();
    c.move_down();
    assert_eq!(floats3(c.position), nalgebra_glm::vec3(0.0f32, -0.25, 3.0));
}

#[test]
fn run_modifier_switches_speed() {
    let mut c = fresh_camera();
    c.set_run(true);
    assert_eq!(c.speed, 0.4f32.to_bits());
    c.set_run(false);
    assert_eq!(c.speed, 0.1f32.to_bits());
}

#[test]
fn cursor_capture_flag_cycle() {
    let mut c = fresh_camera();
    assert!(c.begin_look());
    assert!(!c.first_click);
    assert!(!c.begin_look());
    c.end_look();
    assert!(c.first_click);
}

#[test]
fn mouse_look_single_step_matches_reference_arithmetic() {
    let mut c = fresh_camera();
    let rot_x = 0.02f32;
    let rot_y = 0.03f32;
    c.mouse_look(rot_x.to_bits(), rot_y.to_bits());
    let orientation = nalgebra_glm::vec3(0.0f32, 0.0, -1.0);
    let up = nalgebra_glm::vec3(0.0f32, 1.0, 0.0);
    let right = nalgebra_glm::normalize(&nalgebra_glm::cross(&orientation, &up));
    let candidate = nalgebra_glm::rotate_vec3(&orientation, -rot_x, &right);
    let angle = nalgebra_glm::angle(&candidate, &up);
    assert!(angle >= 5.0f32.to_radians() && angle <= 175.0f32.to_radians());
    let expected = nalgebra_glm::rotate_vec3(&candidate, -rot_y, &up);
    assert_eq!(floats3(c.orientation), expected);
}

#[test]
fn mouse_look_clamps_vertical_rotation() {
    // drive the pitch hard toward the pole; the angle between orientation
    // and up must stay within [5, 175] degrees and never flip past it
    let mut c = fresh_camera();
    let rot_x = 0.2f32;
    for _ in 0..200 {
        c.mouse_look(rot_x.to_bits(), 0.0f32.to_bits());
        let o = floats3(c.orientation);
        let angle = nalgebra_glm::angle(&o, &nalgebra_glm::vec3(0.0f32, 1.0, 0.0));
        let deg = angle.to_degrees();
        assert!((4.99..=175.01).contains(&deg), "angle left the clamp: {}", deg);
    }
    // and the same driving the other way
    let mut c = fresh_camera();
    for _ in 0..200 {
        c.mouse_look((-0.2f32).to_bits(), 0.0f32.to_bits());
        let o = floats3(c.orientation);
        let angle = nalgebra_glm::angle(&o, &nalgebra_glm::vec3(0.0f32, 1.0, 0.0));
        let deg = angle.to_degrees();
        assert!((4.99..=175.01).contains(&deg), "angle left the clamp: {}", deg);
    }
}

#[test]
fn clamp_bounds_are_the_degree_limits_in_radians() {
    assert_eq!(F32_RAD_5_DEG, (5.0f64.to_radians() as f32).to_bits());
    assert_eq!(F32_RAD_175_DEG, (175.0f64.to_radians() as f32).to_bits());
}
