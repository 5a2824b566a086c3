use nif_render::bits::Vec3Bits;
use nif_render::camera::Camera;
use nif_render::light::Light;

fn v3(x: f32, y: f32, z: f32) -> Vec3Bits {
    Vec3Bits::new(x.to_bits(), y.to_bits(), z.to_bits())
}

fn floats16(words: &[u32; 16]) -> [f64; 16] {
    let mut out = [0.0f64; 16];
    for (slot, &w) in out.iter_mut().zip(words.iter()) {
        *slot = f32::from_bits(w) as f64;
    }
    out
}

fn normalize(v: [f64; 3]) -> [f64; 3] {
    let len = (v[0] * v[0] + v[1] * v[1] + v[2] * v[2]).sqrt();
    [v[0] / len, v[1] / len, v[2] / len]
}

fn cross(a: [f64; 3], b: [f64; 3]) -> [f64; 3] {
    [
        a[1] * b[2] - a[2] * b[1],
        a[2] * b[0] - a[0] * b[2],
        a[0] * b[1] - a[1] * b[0],
    ]
}

fn dot(a: [f64; 3], b: [f64; 3]) -> f64 {
    a[0] * b[0] + a[1] * b[1] + a[2] * b[2]
}

/// A right-handed look-at view matrix, column major.
fn look_at_rh(eye: [f64; 3], target: [f64; 3], up: [f64; 3]) -> [f64; 16] {
    let f = normalize([target[0] - eye[0], target[1] - eye[1], target[2] - eye[2]]);
    let s = normalize(cross(f, up));
    let u = cross(s, f);
    [
        s[0], u[0], -f[0], 0.0, //
        s[1], u[1], -f[1], 0.0, //
        s[2], u[2], -f[2], 0.0, //
        -dot(eye, s), -dot(eye, u), dot(eye, f), 1.0,
    ]
}

/// A right-handed perspective projection with a 0..1 depth range, column
/// major.
fn perspective_rh(fov_y_radians: f64, aspect: f64, z_near: f64, z_far: f64) -> [f64; 16] {
    let h = 1.0 / (0.5 * fov_y_radians).tan();
    let w = h / aspect;
    let r = z_far / (z_near - z_far);
    [
        w, 0.0, 0.0, 0.0, //
        0.0, h, 0.0, 0.0, //
        0.0, 0.0, r, -1.0, //
        0.0, 0.0, r * z_near, 0.0,
    ]
}

fn mat_mul(a: &[f64; 16], b: &[f64; 16]) -> [f64; 16] {
    let mut c = [0.0f64; 16];
    for j in 0..4 {
        for i in 0..4 {
            let mut acc = 0.0;
            for k in 0..4 {
                acc += a[k * 4 + i] * b[j * 4 + k];
            }
            c[j * 4 + i] = acc;
        }
    }
    c
}

fn assert_close(actual: &[f64; 16], expected: &[f64; 16]) {
    for i in 0..16 {
        let tolerance = 1e-5 * expected[i].abs().max(1.0);
        assert!(
            (actual[i] - expected[i]).abs() <= tolerance,
            "entry {}: {} vs {}",
            i,
            actual[i],
            expected[i]
        );
    }
}

#[test]
fn view_proj_matches_independent_look_at_times_perspective() {
    // Camera at eye (5, -5, 5) looking at the origin with +Z up, a
    // 60-degree field of view, near 1, far 100000, square aspect: the
    // uniform's view-projection must match an independently recomputed
    // perspective * look-at within floating-point tolerance.
    let camera = Camera {
        eye: v3(5.0, -5.0, 5.0),
        target: v3(0.0, 0.0, 0.0),
        up: v3(0.0, 0.0, 1.0),
        aspect_ratio: 1.0f32.to_bits(),
        ..Default::default()
    };
    let raw = camera.to_raw();

    let view = look_at_rh([5.0, -5.0, 5.0], [0.0, 0.0, 0.0], [0.0, 0.0, 1.0]);
    let proj = perspective_rh(60.0f64.to_radians(), 1.0, 1.0, 100000.0);
    let expected = mat_mul(&proj, &view);

    assert_close(&floats16(&raw.view_proj), &expected);
}

#[test]
fn view_matrix_agrees_with_glam_look_at() {
    let camera = Camera {
        eye: v3(5.0, -5.0, 5.0),
        target: v3(0.0, 0.0, 0.0),
        up: v3(0.0, 0.0, 1.0),
        ..Default::default()
    };
    let words = camera.build_view_matrix();
    let direct = glam::Mat4::look_at_rh(
        glam::vec3(5.0, -5.0, 5.0),
        glam::Vec3::ZERO,
        glam::Vec3::Z,
    )
    .to_cols_array();
    for (&word, &expected) in words.iter().zip(direct.iter()) {
        assert_eq!(word, expected.to_bits());
    }
}

#[test]
fn camera_uniform_extends_the_eye_with_a_unit_component() {
    let camera = Camera { eye: v3(5.0, -5.0, 5.0), ..Default::default() };
    let raw = camera.to_raw();
    assert_eq!(raw.position[0], 5.0f32.to_bits());
    assert_eq!(raw.position[1], (-5.0f32).to_bits());
    assert_eq!(raw.position[2], 5.0f32.to_bits());
    assert_eq!(raw.position[3], 1.0f32.to_bits());
}

#[test]
fn camera_default_has_the_documented_constants() {
    let camera = Camera::default();
    assert_eq!(camera.eye, v3(0.0, 5.0, 10.0));
    assert_eq!(camera.target, v3(0.0, 0.0, 0.0));
    assert_eq!(camera.up, v3(0.0, 0.0, 1.0));
    assert_eq!(camera.aspect_ratio, 1.0f32.to_bits());
    assert_eq!(camera.fov_y, 60.0f32.to_bits());
    assert_eq!(camera.z_near, 1.0f32.to_bits());
    assert_eq!(camera.z_far, 100000.0f32.to_bits());
}

#[test]
fn camera_uniform_words_are_position_then_view_proj() {
    let camera = Camera::default();
    let raw = camera.to_raw();
    let words = raw.words();
    assert_eq!(words.len(), 20);
    assert_eq!(&words[0..4], &raw.position);
    assert_eq!(&words[4..20], &raw.view_proj);
}

#[test]
fn light_uniform_words_pad_each_group_to_sixteen_bytes() {
    let light = Light::default();
    assert_eq!(light.position, v3(5.0, 0.0, 10.0));
    assert_eq!(light.color, v3(1.0, 1.0, 1.0));
    let words = light.to_raw().words();
    let expected: Vec<u32> = vec![
        5.0f32.to_bits(),
        0.0f32.to_bits(),
        10.0f32.to_bits(),
        0,
        1.0f32.to_bits(),
        1.0f32.to_bits(),
        1.0f32.to_bits(),
        0,
    ];
    assert_eq!(words, expected);
}
