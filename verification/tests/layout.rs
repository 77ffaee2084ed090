use raytrace_pipeline::layout::{
    spheres_to_bytes, triangles_to_bytes, SPHERE_STRIDE, TRIANGLE_STRIDE,
};
use raytrace_pipeline::{Color, Point, Sphere, Surface, Triangle};

fn sample_surface() -> Surface {
    Surface::new(
        Color::from((1.0f32.to_bits(), 1.0f32.to_bits(), 0.0f32.to_bits(), 1.0f32.to_bits())),
        Color::from((0.8f32.to_bits(), 0.8f32.to_bits(), 0.8f32.to_bits(), 1.0f32.to_bits())),
        1000.0f32.to_bits(),
    )
}

fn sample_sphere() -> Sphere {
    Sphere::new(
        Point::from((0.0f32.to_bits(), 0.0f32.to_bits(), 5.0f32.to_bits())),
        sample_surface(),
        3.0f32.to_bits(),
    )
}

#[test]
fn sphere_record_is_one_aligned_stride() {
    let bytes = spheres_to_bytes(&vec![sample_sphere()]);
    assert_eq!(bytes.len(), SPHERE_STRIDE);
    assert_eq!(bytes.len() % 16, 0);
}

#[test]
fn sphere_field_offsets() {
    let bytes = spheres_to_bytes(&vec![sample_sphere()]);
    // center at offset 0: x, y, z little-endian, then w defaulted to one
    assert_eq!(&bytes[0..4], &0.0f32.to_bits().to_le_bytes());
    assert_eq!(&bytes[8..12], &5.0f32.to_bits().to_le_bytes());
    assert_eq!(&bytes[12..16], &1.0f32.to_bits().to_le_bytes());
    // surface at offset 16: diffuse color first
    assert_eq!(&bytes[16..20], &1.0f32.to_bits().to_le_bytes());
    assert_eq!(&bytes[24..28], &0.0f32.to_bits().to_le_bytes());
    // specular color at offset 32, intensity at 48
    assert_eq!(&bytes[32..36], &0.8f32.to_bits().to_le_bytes());
    assert_eq!(&bytes[48..52], &1000.0f32.to_bits().to_le_bytes());
    // radius at offset 64
    assert_eq!(&bytes[64..68], &3.0f32.to_bits().to_le_bytes());
}

#[test]
fn sphere_padding_bytes_are_zero() {
    let bytes = spheres_to_bytes(&vec![sample_sphere()]);
    for i in 52..64 {
        assert_eq!(bytes[i], 0);
    }
    for i in 68..80 {
        assert_eq!(bytes[i], 0);
    }
}

#[test]
fn triangle_record_is_one_aligned_stride() {
    let t = Triangle::new(
        [
            Point::from((3.0f32.to_bits(), (-3.0f32).to_bits(), 4.0f32.to_bits())),
            Point::from(((-1.0f32).to_bits(), (-1.0f32).to_bits(), 6.0f32.to_bits())),
            Point::from((4.0f32.to_bits(), (-0.5f32).to_bits(), 3.5f32.to_bits())),
        ],
        sample_surface(),
    );
    let bytes = triangles_to_bytes(&vec![t]);
    assert_eq!(bytes.len(), TRIANGLE_STRIDE);
    assert_eq!(bytes.len() % 16, 0);
    // second vertex at offset 16, third at 32, surface at 48
    assert_eq!(&bytes[16..20], &(-1.0f32).to_bits().to_le_bytes());
    assert_eq!(&bytes[32..36], &4.0f32.to_bits().to_le_bytes());
    assert_eq!(&bytes[48..52], &1.0f32.to_bits().to_le_bytes());
    // vertex w components defaulted to one
    assert_eq!(&bytes[12..16], &1.0f32.to_bits().to_le_bytes());
    assert_eq!(&bytes[28..32], &1.0f32.to_bits().to_le_bytes());
    // surface padding at 84..96 is zero
    for i in 84..96 {
        assert_eq!(bytes[i], 0);
    }
}

#[test]
fn empty_scene_serializes_to_empty_buffers() {
    assert_eq!(spheres_to_bytes(&vec![]).len(), 0);
    assert_eq!(triangles_to_bytes(&vec![]).len(), 0);
}

#[test]
fn records_are_densely_packed_in_order() {
    let a = sample_sphere();
    let b = Sphere::new(
        Point::from(((-1.0f32).to_bits(), (-2.0f32).to_bits(), 5.3f32.to_bits())),
        Surface::new(
            Color::from((0.0f32.to_bits(), 0.0f32.to_bits(), 1.0f32.to_bits(), 1.0f32.to_bits())),
            Color::from((0.8f32.to_bits(), 0.8f32.to_bits(), 0.8f32.to_bits(), 1.0f32.to_bits())),
            10.0f32.to_bits(),
        ),
        1.5f32.to_bits(),
    );
    let both = spheres_to_bytes(&vec![a, b]);
    assert_eq!(both.len(), 2 * SPHERE_STRIDE);
    let first = spheres_to_bytes(&vec![a]);
    let second = spheres_to_bytes(&vec![b]);
    assert_eq!(&both[0..SPHERE_STRIDE], &first[..]);
    assert_eq!(&both[SPHERE_STRIDE..], &second[..]);
}

#[test]
fn serialization_is_deterministic() {
    let scene = vec![sample_sphere(), sample_sphere()];
    let once = spheres_to_bytes(&scene);
    let twice = spheres_to_bytes(&scene);
    assert_eq!(once, twice);
}
