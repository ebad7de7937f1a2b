use litcube::light::{lambert_weight, scene_ambient, scene_directional, shade_fragment, Rgb};
use litcube::mat::{Vec3, Vec4};

/// A raw fixed-point direction, normalized to unit length in floating point
/// and rounded back to fixed point — what the fragment shader's `normalize`
/// does to the difference `direction_from` returns.
fn normalized(raw: Vec3) -> Vec3 {
    let (x, y, z) = (raw.x as f64, raw.y as f64, raw.z as f64);
    let len = (x * x + y * y + z * z).sqrt();
    Vec3 {
        x: (x * 1000.0 / len).round() as i64,
        y: (y * 1000.0 / len).round() as i64,
        z: (z * 1000.0 / len).round() as i64,
    }
}

#[test]
fn ambient_term_is_color_times_intensity() {
    // White at intensity 0.2 gives (0.2, 0.2, 0.2).
    let ambient = scene_ambient();
    let term = ambient.term();
    assert_eq!(term, Rgb { r: 200, g: 200, b: 200 });
}

#[test]
fn directional_term_vanishes_for_an_orthogonal_normal() {
    // Normal (0, 0, 1) against the normalized direction toward the light at
    // (-4, -4, 0) from the origin: the dot product is zero, so the whole
    // term is zero.
    let light = scene_directional();
    let frag = Vec3 { x: 0, y: 0, z: 0 };
    let toward = normalized(light.direction_from(frag));
    assert_eq!((toward.x, toward.y, toward.z), (-707, -707, 0));
    let normal = Vec3 { x: 0, y: 0, z: 1000 };
    let term = light.term(normal, toward);
    assert_eq!(term, Rgb { r: 0, g: 0, b: 0 });
}

#[test]
fn directional_term_is_full_for_a_normal_facing_the_light() {
    // A light straight ahead of the fragment: the normalized direction is
    // (0, 0, 1), the weight is 1.0, and a white light contributes fully.
    let light = litcube::light::DirectionalLight {
        position: Vec4 { x: 0, y: 0, z: 2000, w: 1000 },
        color: scene_directional().color,
    };
    let frag = Vec3 { x: 0, y: 0, z: 0 };
    let toward = normalized(light.direction_from(frag));
    assert_eq!((toward.x, toward.y, toward.z), (0, 0, 1000));
    let normal = Vec3 { x: 0, y: 0, z: 1000 };
    let term = light.term(normal, toward);
    assert_eq!(term, Rgb { r: 1000, g: 1000, b: 1000 });
}

#[test]
fn front_face_fragment_matches_the_shader_equation() {
    // The scene at elapsed time zero: the cube's front-face vertex (-1,-1,1)
    // sits at world position (-1,-1,-1.5) after the static translation, its
    // normal stays (0,0,1). The raw direction toward the light is
    // (-3,-3,1.5) with length exactly 4.5, so the normalized direction is
    // (-2/3, -2/3, 1/3) and the Lambert weight is 1/3.
    let light = scene_directional();
    let frag = Vec3 { x: -1000, y: -1000, z: -1500 };
    let raw = light.direction_from(frag);
    assert_eq!((raw.x, raw.y, raw.z), (-3000, -3000, 1500));
    let toward = normalized(raw);
    assert_eq!((toward.x, toward.y, toward.z), (-667, -667, 333));
    let normal = Vec3 { x: 0, y: 0, z: 1000 };
    let directional = light.term(normal, toward);
    assert_eq!(directional, Rgb { r: 333, g: 333, b: 333 });
    // Shading: (0.2 + 1/3) times the base color (1.0, 0.35, 0.137) gives
    // (0.533, 0.186, 0.073) in fixed point.
    let out = shade_fragment(
        scene_ambient().term(),
        directional,
        Rgb { r: 1000, g: 350, b: 137 },
    );
    assert_eq!(out, Rgb { r: 533, g: 186, b: 73 });
}

#[test]
fn lambert_weight_clamps_a_negative_dot_product_to_zero() {
    let normal = Vec3 { x: 0, y: 0, z: 1000 };
    let away = Vec3 { x: 0, y: 0, z: -1000 };
    assert_eq!(lambert_weight(normal, away), 0);
    let toward = Vec3 { x: 0, y: 0, z: 1000 };
    assert_eq!(lambert_weight(normal, toward), 1000);
}

#[test]
fn shading_combines_ambient_and_directional_over_the_base_color() {
    // The fragment of the orthogonal-normal case: ambient (0.2, 0.2, 0.2),
    // directional zero, base color (1.0, 0.35, 0.137).
    let ambient = scene_ambient().term();
    let directional = Rgb { r: 0, g: 0, b: 0 };
    let base = Rgb { r: 1000, g: 350, b: 137 };
    let out = shade_fragment(ambient, directional, base);
    assert_eq!(out, Rgb { r: 200, g: 70, b: 27 });
}
