use litcube::frame::Extent;
use litcube::transform::{frame_inputs, rotation_angles, scene_model_matrix};
use litcube::vertex::MVP;

#[test]
fn frame_inputs_at_start_match_the_fixed_scene() {
    let f = frame_inputs(Extent::new(800, 600), 0);
    // View: lookAt(eye (0, 0, 0.01), target (0, 0, 0), up (0, -1, 0)).
    assert_eq!((f.camera.eye.x, f.camera.eye.y, f.camera.eye.z), (0, 0, 10));
    assert_eq!(
        (f.camera.target.x, f.camera.target.y, f.camera.target.z),
        (0, 0, 0)
    );
    assert_eq!((f.camera.up.x, f.camera.up.y, f.camera.up.z), (0, -1000, 0));
    // Projection: aspect 800/600, the field-of-view constant, near 0.01, far 100.
    assert_eq!(f.projection.aspect_width, 800);
    assert_eq!(f.projection.aspect_height, 600);
    assert_eq!(f.projection.fovy_milli, 180000);
    assert_eq!(f.projection.near_milli, 10);
    assert_eq!(f.projection.far_milli, 100000);
    // No rotation at elapsed time zero.
    assert_eq!(f.angles.z_millideg, 0);
    assert_eq!(f.angles.y_millideg, 0);
    assert_eq!(f.angles.x_millideg, 0);
    // The static model translation (0, 0, -2.5).
    assert_eq!(
        (f.model_offset.x, f.model_offset.y, f.model_offset.z),
        (0, 0, -2500)
    );
}

#[test]
fn rotation_angles_grow_at_the_scene_rates() {
    // After two seconds: 100, 60 and 40 degrees about z, y and x.
    let a = rotation_angles(2000);
    assert_eq!(a.z_millideg, 100000);
    assert_eq!(a.y_millideg, 60000);
    assert_eq!(a.x_millideg, 40000);
}

#[test]
fn fresh_mvp_matrices_are_the_identity() {
    let mvp = MVP::new();
    for r in 0..4 {
        for c in 0..4 {
            let expected = if r == c { 1000 } else { 0 };
            assert_eq!(mvp.model.entry(r, c), expected);
            assert_eq!(mvp.view.entry(r, c), expected);
            assert_eq!(mvp.projection.entry(r, c), expected);
        }
    }
}

#[test]
fn model_matrix_translates_away_from_the_camera() {
    let m = scene_model_matrix();
    for r in 0..4 {
        for c in 0..4 {
            let expected = if r == 2 && c == 3 {
                -2500
            } else if r == c {
                1000
            } else {
                0
            };
            assert_eq!(m.entry(r, c), expected);
        }
    }
}

#[test]
fn projection_matrix_is_invertible_and_spans_the_depth_range() {
    // Build the floating-point perspective matrix exactly as the renderer
    // does, from the fixed-point parameters of an 800x600 surface.
    let f = frame_inputs(Extent::new(800, 600), 0);
    let aspect = f.projection.aspect_width as f32 / f.projection.aspect_height as f32;
    let fovy = f.projection.fovy_milli as f32 / 1000.0;
    let near = f.projection.near_milli as f32 / 1000.0;
    let far = f.projection.far_milli as f32 / 1000.0;
    let m = nalgebra_glm::perspective(aspect, fovy, near, far);
    let det = nalgebra_glm::determinant(&m);
    assert!(det.abs() > 1.0e-6);
    // A point on the near plane maps to clip depth -1, one on the far plane
    // to +1 (after the perspective divide).
    let on_near = m * nalgebra_glm::vec4(0.0, 0.0, -near, 1.0);
    let on_far = m * nalgebra_glm::vec4(0.0, 0.0, -far, 1.0);
    assert!((on_near.z / on_near.w + 1.0).abs() < 1.0e-3);
    assert!((on_far.z / on_far.w - 1.0).abs() < 1.0e-3);
}
