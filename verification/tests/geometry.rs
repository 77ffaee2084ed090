use raytrace_pipeline::{Color, Point, Surface, UNIT_BITS};

#[test]
fn unit_bits_is_one() {
    assert_eq!(UNIT_BITS, 1.0f32.to_bits());
}

#[test]
fn point_from_triple_defaults_w() {
    let p = Point::from((1.5f32.to_bits(), (-2.0f32).to_bits(), 5.0f32.to_bits()));
    assert_eq!(p.x, 1.5f32.to_bits());
    assert_eq!(p.y, (-2.0f32).to_bits());
    assert_eq!(p.z, 5.0f32.to_bits());
    assert_eq!(p.w, 1.0f32.to_bits());
}

#[test]
fn point_from_quad_passes_through() {
    let p = Point::from((1u32, 2u32, 3u32, 4u32));
    assert_eq!((p.x, p.y, p.z, p.w), (1, 2, 3, 4));
}

#[test]
fn point_from_arrays() {
    let p = Point::from([7u32, 8, 9]);
    assert_eq!((p.x, p.y, p.z, p.w), (7, 8, 9, UNIT_BITS));
    let q = Point::from([7u32, 8, 9, 10]);
    assert_eq!((q.x, q.y, q.z, q.w), (7, 8, 9, 10));
}

#[test]
fn color_from_triple_defaults_alpha() {
    let c = Color::from((1.0f32.to_bits(), 1.0f32.to_bits(), 0.0f32.to_bits()));
    assert_eq!(c.r, 1.0f32.to_bits());
    assert_eq!(c.g, 1.0f32.to_bits());
    assert_eq!(c.b, 0.0f32.to_bits());
    assert_eq!(c.a, 1.0f32.to_bits());
}

#[test]
fn color_from_quad_and_arrays_pass_through() {
    let c = Color::from((5u32, 6u32, 7u32, 8u32));
    assert_eq!((c.r, c.g, c.b, c.a), (5, 6, 7, 8));
    let d = Color::from([5u32, 6, 7]);
    assert_eq!((d.r, d.g, d.b, d.a), (5, 6, 7, UNIT_BITS));
    let e = Color::from([5u32, 6, 7, 8]);
    assert_eq!((e.r, e.g, e.b, e.a), (5, 6, 7, 8));
}

#[test]
fn surface_new_zeroes_padding() {
    let s = Surface::new(
        Color::from((1u32, 2, 3, 4)),
        Color::from((5u32, 6, 7, 8)),
        1000.0f32.to_bits(),
    );
    assert_eq!(s._padding, [0, 0, 0]);
    assert_eq!(s.specular_intensity, 1000.0f32.to_bits());
}
