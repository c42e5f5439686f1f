use cgmath::{perspective, Deg, Matrix4, Point3, Vector3};
use quad_render::camera::{Aspect, Camera, CameraUniform, UNIFORM_SIZE};
use quad_render::ieee::{
    DOUBLE_ONE, DOUBLE_TENTH, DOUBLE_THREE_TENTHS, DOUBLE_TWO_TENTHS, SINGLE_FORTY_FIVE,
    SINGLE_HUNDRED, SINGLE_MINUS_ONE, SINGLE_ONE, SINGLE_TENTH, SINGLE_TWO, SINGLE_ZERO,
};
use quad_render::vertex::BufferUsage;

fn single(bits: u32) -> f32 {
    f32::from_bits(bits)
}

fn view_projection(camera: &Camera) -> [[f32; 4]; 4] {
    let correction = Matrix4::new(
        1.0, 0.0, 0.0, 0.0, //
        0.0, 1.0, 0.0, 0.0, //
        0.0, 0.0, 0.5, 0.0, //
        0.0, 0.0, 0.5, 1.0,
    );
    let eye = Point3::new(single(camera.eye[0]), single(camera.eye[1]), single(camera.eye[2]));
    let target =
        Point3::new(single(camera.target[0]), single(camera.target[1]), single(camera.target[2]));
    let up = Vector3::new(single(camera.up[0]), single(camera.up[1]), single(camera.up[2]));
    let view = Matrix4::look_at_rh(eye, target, up);
    let aspect = camera.aspect.width as f32 / camera.aspect.height as f32;
    let proj = perspective(Deg(single(camera.fovy)), aspect, single(camera.znear), single(camera.zfar));
    (correction * proj * view).into()
}

fn uniform_of(matrix: [[f32; 4]; 4]) -> CameraUniform {
    let mut uniform = CameraUniform::new();
    for i in 0..4 {
        for j in 0..4 {
            uniform.view_proj[i][j] = matrix[i][j].to_bits();
        }
    }
    uniform
}

#[test]
fn bit_patterns_are_the_values_they_are_named_after() {
    assert_eq!(SINGLE_ZERO, 0.0f32.to_bits());
    assert_eq!(SINGLE_ONE, 1.0f32.to_bits());
    assert_eq!(SINGLE_MINUS_ONE, (-1.0f32).to_bits());
    assert_eq!(SINGLE_TWO, 2.0f32.to_bits());
    assert_eq!(SINGLE_FORTY_FIVE, 45.0f32.to_bits());
    assert_eq!(SINGLE_TENTH, 0.1f32.to_bits());
    assert_eq!(SINGLE_HUNDRED, 100.0f32.to_bits());
    assert_eq!(DOUBLE_TENTH, 0.1f64.to_bits());
    assert_eq!(DOUBLE_TWO_TENTHS, 0.2f64.to_bits());
    assert_eq!(DOUBLE_THREE_TENTHS, 0.3f64.to_bits());
    assert_eq!(DOUBLE_ONE, 1.0f64.to_bits());
}

#[test]
fn new_camera_stands_at_the_fixed_placement() {
    let camera = Camera::new(800, 600);
    assert_eq!(camera.eye.map(single), [0.0, 0.0, 2.0]);
    assert_eq!(camera.target.map(single), [0.0, 0.0, 0.0]);
    assert_eq!(camera.up.map(single), [0.0, 1.0, 0.0]);
    assert_eq!(camera.aspect, Aspect { width: 800, height: 600 });
    assert_eq!(single(camera.fovy), 45.0);
    assert_eq!(single(camera.znear), 0.1);
    assert_eq!(single(camera.zfar), 100.0);
}

#[test]
fn set_aspect_changes_the_aspect_and_nothing_else() {
    let mut camera = Camera::new(800, 600);
    let before = camera;
    camera.set_aspect(1920, 1080);
    assert_eq!(camera.aspect, Aspect { width: 1920, height: 1080 });
    assert_eq!(camera.eye, before.eye);
    assert_eq!(camera.target, before.target);
    assert_eq!(camera.up, before.up);
    assert_eq!(camera.fovy, before.fovy);
    assert_eq!(camera.znear, before.znear);
    assert_eq!(camera.zfar, before.zfar);
    camera.set_aspect(1920, 1080);
    assert_eq!(camera.aspect, Aspect { width: 1920, height: 1080 });
}

#[test]
fn new_uniform_is_the_identity_matrix() {
    let uniform = CameraUniform::new();
    for i in 0..4 {
        for j in 0..4 {
            let expected = if i == j { 1.0f32 } else { 0.0 };
            assert_eq!(single(uniform.view_proj[i][j]), expected);
        }
    }
}

#[test]
fn uniform_words_are_in_buffer_order() {
    let mut uniform = CameraUniform::new();
    for i in 0..4 {
        for j in 0..4 {
            uniform.view_proj[i][j] = (4 * i + j) as u32;
        }
    }
    assert_eq!(uniform.to_words(), (0u32..16).collect::<Vec<u32>>());
}

#[test]
fn uniform_bytes_are_one_matrix_in_native_order() {
    let mut uniform = CameraUniform::new();
    uniform.view_proj[2][1] = 0x1234_5678;
    let bytes = uniform.to_bytes();
    assert_eq!(bytes.len(), 64);
    assert_eq!(bytes.len() as u64, UNIFORM_SIZE);
    let mut expected = Vec::new();
    for word in uniform.to_words() {
        expected.extend_from_slice(&word.to_ne_bytes());
    }
    assert_eq!(bytes, expected);
    assert_eq!(&bytes[36..40], &0x1234_5678u32.to_ne_bytes()[..]);
}

#[test]
fn uniform_buffer_starts_with_the_matrix() {
    let uniform = uniform_of(view_projection(&Camera::new(4, 3)));
    let init = uniform.buffer_init();
    assert_eq!(init.usage, BufferUsage::Uniform);
    assert_eq!(init.label, "Camera Buffer");
    assert_eq!(init.contents, uniform.to_bytes());
}

#[test]
fn matrix_read_back_from_the_uniform_bytes_is_the_matrix() {
    for (width, height) in [(800u32, 600u32), (1, 1), (1920, 1080), (3, 7)] {
        let camera = Camera::new(width, height);
        let matrix = view_projection(&camera);
        let bytes = uniform_of(matrix).to_bytes();
        assert_eq!(bytes.len(), 64);
        let back: Vec<f32> = bytes
            .chunks_exact(4)
            .map(|chunk| f32::from_ne_bytes([chunk[0], chunk[1], chunk[2], chunk[3]]))
            .collect();
        let direct = view_projection(&camera);
        for i in 0..4 {
            for j in 0..4 {
                assert_eq!(back[4 * i + j].to_bits(), direct[i][j].to_bits());
                assert!(back[4 * i + j].is_finite());
            }
        }
    }
}
