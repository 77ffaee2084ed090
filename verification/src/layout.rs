use vstd::prelude::*;

use crate::geometry::Color;
use crate::geometry::Point;
use crate::geometry::Sphere;
use crate::geometry::Surface;
use crate::geometry::Triangle;

verus! {

/// Serialization of scene records into the flat byte buffers the device
/// reads. Every record serializes to an exact multiple of 16 bytes, the
/// alignment unit required for a buffer of structs bound to a compute
/// kernel, and field order is fixed: the kernel reads these bytes at the
/// offsets stated by the layout lemmas below.

/// Byte size of a serialized Point.
pub const POINT_STRIDE: usize = 16;

/// Byte size of a serialized Color.
pub const COLOR_STRIDE: usize = 16;

/// Byte size of a serialized Surface, padding included.
pub const SURFACE_STRIDE: usize = 48;

/// Byte size of a serialized Sphere, padding included.
pub const SPHERE_STRIDE: usize = 80;

/// Byte size of a serialized Triangle.
pub const TRIANGLE_STRIDE: usize = 96;

/// The four little-endian bytes of one device scalar's bit pattern.
#[verifier::opaque]
pub open spec fn le_bytes(v: u32) -> Seq<u8> {
    seq![
        (v % 256) as u8,
        ((v / 256) % 256) as u8,
        ((v / 65536) % 256) as u8,
        ((v / 16777216) % 256) as u8,
    ]
}

pub broadcast proof fn lemma_le_bytes_len(v: u32)
    ensures
        (#[trigger] le_bytes(v)).len() == 4,
{
    reveal(le_bytes);
}

/// A scalar whose bit pattern is zero serializes to four zero bytes.
pub proof fn lemma_le_bytes_zero()
    ensures
        forall|i: int| 0 <= i < 4 ==> le_bytes(0)[i] == 0,
{
    reveal(le_bytes);
}

pub open spec fn point_bytes(p: Point) -> Seq<u8> {
    le_bytes(p.x) + le_bytes(p.y) + le_bytes(p.z) + le_bytes(p.w)
}

pub open spec fn color_bytes(c: Color) -> Seq<u8> {
    le_bytes(c.r) + le_bytes(c.g) + le_bytes(c.b) + le_bytes(c.a)
}

pub open spec fn surface_bytes(s: Surface) -> Seq<u8> {
    color_bytes(s.diffuse_color) + color_bytes(s.specular_color) + le_bytes(s.specular_intensity)
        + le_bytes(s._padding[0]) + le_bytes(s._padding[1]) + le_bytes(s._padding[2])
}

pub open spec fn sphere_bytes(s: Sphere) -> Seq<u8> {
    point_bytes(s.center) + surface_bytes(s.surface) + le_bytes(s.radius)
        + le_bytes(s._padding[0]) + le_bytes(s._padding[1]) + le_bytes(s._padding[2])
}

pub open spec fn triangle_bytes(t: Triangle) -> Seq<u8> {
    point_bytes(t.vertices[0]) + point_bytes(t.vertices[1]) + point_bytes(t.vertices[2])
        + surface_bytes(t.surface)
}

/// The sphere buffer: each record's bytes in input order, no gaps.
pub open spec fn spheres_bytes(s: Seq<Sphere>) -> Seq<u8>
    decreases s.len(),
{
    if s.len() == 0 {
        Seq::empty()
    } else {
        sphere_bytes(s[0]) + spheres_bytes(s.drop_first())
    }
}

/// The triangle buffer: each record's bytes in input order, no gaps.
pub open spec fn triangles_bytes(t: Seq<Triangle>) -> Seq<u8>
    decreases t.len(),
{
    if t.len() == 0 {
        Seq::empty()
    } else {
        triangle_bytes(t[0]) + triangles_bytes(t.drop_first())
    }
}

fn push_scalar(out: &mut Vec<u8>, v: u32)
    ensures
        final(out)@ == old(out)@ + le_bytes(v),
{
    out.push((v % 256) as u8);
    out.push(((v / 256) % 256) as u8);
    out.push(((v / 65536) % 256) as u8);
    out.push(((v / 16777216) % 256) as u8);
    proof {
        reveal(le_bytes);
        assert(out@ =~= old(out)@ + le_bytes(v));
    }
}

fn push_point(out: &mut Vec<u8>, p: Point)
    ensures
        final(out)@ == old(out)@ + point_bytes(p),
{
    push_scalar(out, p.x);
    push_scalar(out, p.y);
    push_scalar(out, p.z);
    push_scalar(out, p.w);
    proof {
        broadcast use lemma_le_bytes_len;

        assert(out@ =~= old(out)@ + point_bytes(p));
    }
}

fn push_color(out: &mut Vec<u8>, c: Color)
    ensures
        final(out)@ == old(out)@ + color_bytes(c),
{
    push_scalar(out, c.r);
    push_scalar(out, c.g);
    push_scalar(out, c.b);
    push_scalar(out, c.a);
    proof {
        broadcast use lemma_le_bytes_len;

        assert(out@ =~= old(out)@ + color_bytes(c));
    }
}

fn push_surface(out: &mut Vec<u8>, s: Surface)
    ensures
        final(out)@ == old(out)@ + surface_bytes(s),
{
    push_color(out, s.diffuse_color);
    push_color(out, s.specular_color);
    push_scalar(out, s.specular_intensity);
    push_scalar(out, s._padding[0]);
    push_scalar(out, s._padding[1]);
    push_scalar(out, s._padding[2]);
    proof {
        broadcast use lemma_le_bytes_len;

        assert(out@ =~= old(out)@ + surface_bytes(s));
    }
}

fn push_sphere(out: &mut Vec<u8>, s: Sphere)
    ensures
        final(out)@ == old(out)@ + sphere_bytes(s),
{
    push_point(out, s.center);
    push_surface(out, s.surface);
    push_scalar(out, s.radius);
    push_scalar(out, s._padding[0]);
    push_scalar(out, s._padding[1]);
    push_scalar(out, s._padding[2]);
    proof {
        broadcast use lemma_le_bytes_len;

        assert(out@ =~= old(out)@ + sphere_bytes(s));
    }
}

fn push_triangle(out: &mut Vec<u8>, t: Triangle)
    ensures
        final(out)@ == old(out)@ + triangle_bytes(t),
{
    push_point(out, t.vertices[0]);
    push_point(out, t.vertices[1]);
    push_point(out, t.vertices[2]);
    push_surface(out, t.surface);
    proof {
        broadcast use lemma_le_bytes_len;

        assert(out@ =~= old(out)@ + triangle_bytes(t));
    }
}

pub proof fn lemma_spheres_bytes_push(s: Seq<Sphere>, x: Sphere)
    ensures
        spheres_bytes(s.push(x)) == spheres_bytes(s) + sphere_bytes(x),
    decreases s.len(),
{
    broadcast use lemma_le_bytes_len;

    if s.len() == 0 {
        assert(s.push(x)[0] == x);
        assert(s.push(x).drop_first() =~= Seq::<Sphere>::empty());
        Seq::add_empty_right(sphere_bytes(x), spheres_bytes(s.push(x).drop_first()));
        Seq::add_empty_left(spheres_bytes(s), sphere_bytes(x));
    } else {
        assert(s.push(x)[0] == s[0]);
        assert(s.push(x).drop_first() =~= s.drop_first().push(x));
        lemma_spheres_bytes_push(s.drop_first(), x);
        vstd::seq_lib::lemma_concat_associative(
            sphere_bytes(s[0]),
            spheres_bytes(s.drop_first()),
            sphere_bytes(x),
        );
    }
}

pub proof fn lemma_triangles_bytes_push(s: Seq<Triangle>, x: Triangle)
    ensures
        triangles_bytes(s.push(x)) == triangles_bytes(s) + triangle_bytes(x),
    decreases s.len(),
{
    broadcast use lemma_le_bytes_len;

    if s.len() == 0 {
        assert(s.push(x)[0] == x);
        assert(s.push(x).drop_first() =~= Seq::<Triangle>::empty());
        Seq::add_empty_right(triangle_bytes(x), triangles_bytes(s.push(x).drop_first()));
        Seq::add_empty_left(triangles_bytes(s), triangle_bytes(x));
    } else {
        assert(s.push(x)[0] == s[0]);
        assert(s.push(x).drop_first() =~= s.drop_first().push(x));
        lemma_triangles_bytes_push(s.drop_first(), x);
        vstd::seq_lib::lemma_concat_associative(
            triangle_bytes(s[0]),
            triangles_bytes(s.drop_first()),
            triangle_bytes(x),
        );
    }
}

/// The sphere buffer is densely packed: its size is the record stride times
/// the record count, a multiple of 16 bytes.
pub proof fn lemma_spheres_bytes_len(s: Seq<Sphere>)
    ensures
        spheres_bytes(s).len() == SPHERE_STRIDE * s.len(),
        spheres_bytes(s).len() % 16 == 0,
    decreases s.len(),
{
    broadcast use lemma_le_bytes_len;

    if s.len() > 0 {
        lemma_spheres_bytes_len(s.drop_first());
    }
}

/// The triangle buffer is densely packed: its size is the record stride
/// times the record count, a multiple of 16 bytes.
pub proof fn lemma_triangles_bytes_len(t: Seq<Triangle>)
    ensures
        triangles_bytes(t).len() == TRIANGLE_STRIDE * t.len(),
        triangles_bytes(t).len() % 16 == 0,
    decreases t.len(),
{
    broadcast use lemma_le_bytes_len;

    if t.len() > 0 {
        lemma_triangles_bytes_len(t.drop_first());
    }
}

/// Serialize the sphere array into the flat upload buffer, records in input
/// order: buffer position is how the kernel identifies a primitive.
pub fn spheres_to_bytes(spheres: &Vec<Sphere>) -> (out: Vec<u8>)
    ensures
        out@ == spheres_bytes(spheres@),
{
    let mut out: Vec<u8> = Vec::new();
    let mut i: usize = 0;
    while i < spheres.len()
        invariant
            i <= spheres.len(),
            out@ == spheres_bytes(spheres@.take(i as int)),
        decreases spheres.len() - i,
    {
        let ghost prefix = spheres@.take(i as int);
        push_sphere(&mut out, spheres[i]);
        proof {
            assert(prefix.push(spheres@[i as int]) =~= spheres@.take(i as int + 1));
            lemma_spheres_bytes_push(prefix, spheres@[i as int]);
        }
        i += 1;
    }
    proof {
        assert(spheres@.take(spheres@.len() as int) =~= spheres@);
    }
    out
}

/// Serialize the triangle array into the flat upload buffer, records in
/// input order.
pub fn triangles_to_bytes(triangles: &Vec<Triangle>) -> (out: Vec<u8>)
    ensures
        out@ == triangles_bytes(triangles@),
{
    let mut out: Vec<u8> = Vec::new();
    let mut i: usize = 0;
    while i < triangles.len()
        invariant
            i <= triangles.len(),
            out@ == triangles_bytes(triangles@.take(i as int)),
        decreases triangles.len() - i,
    {
        let ghost prefix = triangles@.take(i as int);
        push_triangle(&mut out, triangles[i]);
        proof {
            assert(prefix.push(triangles@[i as int]) =~= triangles@.take(i as int + 1));
            lemma_triangles_bytes_push(prefix, triangles@[i as int]);
        }
        i += 1;
    }
    proof {
        assert(triangles@.take(triangles@.len() as int) =~= triangles@);
    }
    out
}

/// Layout stability of Point: 16 bytes, one scalar at each 4-byte offset.
pub proof fn lemma_point_layout(p: Point)
    ensures
        point_bytes(p).len() == POINT_STRIDE,
        point_bytes(p).len() % 16 == 0,
        point_bytes(p).subrange(0, 4) == le_bytes(p.x),
        point_bytes(p).subrange(4, 8) == le_bytes(p.y),
        point_bytes(p).subrange(8, 12) == le_bytes(p.z),
        point_bytes(p).subrange(12, 16) == le_bytes(p.w),
{
    broadcast use lemma_le_bytes_len;

    assert(point_bytes(p).subrange(0, 4) =~= le_bytes(p.x));
    assert(point_bytes(p).subrange(4, 8) =~= le_bytes(p.y));
    assert(point_bytes(p).subrange(8, 12) =~= le_bytes(p.z));
    assert(point_bytes(p).subrange(12, 16) =~= le_bytes(p.w));
}

/// Layout stability of Color: 16 bytes, one scalar at each 4-byte offset.
pub proof fn lemma_color_layout(c: Color)
    ensures
        color_bytes(c).len() == COLOR_STRIDE,
        color_bytes(c).len() % 16 == 0,
        color_bytes(c).subrange(0, 4) == le_bytes(c.r),
        color_bytes(c).subrange(4, 8) == le_bytes(c.g),
        color_bytes(c).subrange(8, 12) == le_bytes(c.b),
        color_bytes(c).subrange(12, 16) == le_bytes(c.a),
{
    broadcast use lemma_le_bytes_len;

    assert(color_bytes(c).subrange(0, 4) =~= le_bytes(c.r));
    assert(color_bytes(c).subrange(4, 8) =~= le_bytes(c.g));
    assert(color_bytes(c).subrange(8, 12) =~= le_bytes(c.b));
    assert(color_bytes(c).subrange(12, 16) =~= le_bytes(c.a));
}

/// Layout stability of Surface: 48 bytes; diffuse color, specular color,
/// intensity, then 12 padding bytes rounding the record up to 16-byte
/// alignment.
pub proof fn lemma_surface_layout(s: Surface)
    ensures
        surface_bytes(s).len() == SURFACE_STRIDE,
        surface_bytes(s).len() % 16 == 0,
        surface_bytes(s).subrange(0, 16) == color_bytes(s.diffuse_color),
        surface_bytes(s).subrange(16, 32) == color_bytes(s.specular_color),
        surface_bytes(s).subrange(32, 36) == le_bytes(s.specular_intensity),
        s.zero_padded() ==> forall|i: int| 36 <= i < 48 ==> surface_bytes(s)[i] == 0,
{
    broadcast use lemma_le_bytes_len;

    assert(surface_bytes(s).subrange(0, 16) =~= color_bytes(s.diffuse_color));
    assert(surface_bytes(s).subrange(16, 32) =~= color_bytes(s.specular_color));
    assert(surface_bytes(s).subrange(32, 36) =~= le_bytes(s.specular_intensity));
    if s.zero_padded() {
        lemma_le_bytes_zero();
        assert forall|i: int| 36 <= i < 48 implies surface_bytes(s)[i] == 0 by {
            if i < 40 {
                assert(surface_bytes(s)[i] == le_bytes(s._padding[0])[i - 36]);
            } else if i < 44 {
                assert(surface_bytes(s)[i] == le_bytes(s._padding[1])[i - 40]);
            } else {
                assert(surface_bytes(s)[i] == le_bytes(s._padding[2])[i - 44]);
            }
        }
    }
}

/// Layout stability of Sphere: 80 bytes; center, surface, radius, then 12
/// padding bytes. With zero padding the record leaks nothing through its
/// padding bytes.
pub proof fn lemma_sphere_layout(s: Sphere)
    ensures
        sphere_bytes(s).len() == SPHERE_STRIDE,
        sphere_bytes(s).len() % 16 == 0,
        sphere_bytes(s).subrange(0, 16) == point_bytes(s.center),
        sphere_bytes(s).subrange(16, 64) == surface_bytes(s.surface),
        sphere_bytes(s).subrange(64, 68) == le_bytes(s.radius),
        s.zero_padded() ==> forall|i: int|
            (52 <= i < 64 || 68 <= i < 80) ==> sphere_bytes(s)[i] == 0,
{
    broadcast use lemma_le_bytes_len;

    assert(sphere_bytes(s).subrange(0, 16) =~= point_bytes(s.center));
    assert(sphere_bytes(s).subrange(16, 64) =~= surface_bytes(s.surface));
    assert(sphere_bytes(s).subrange(64, 68) =~= le_bytes(s.radius));
    if s.zero_padded() {
        lemma_surface_layout(s.surface);
        lemma_le_bytes_zero();
        assert forall|i: int| 52 <= i < 64 || 68 <= i < 80 implies sphere_bytes(s)[i] == 0 by {
            if 52 <= i < 64 {
                assert(sphere_bytes(s)[i] == surface_bytes(s.surface)[i - 16]);
            } else if i < 72 {
                assert(sphere_bytes(s)[i] == le_bytes(s._padding[0])[i - 68]);
            } else if i < 76 {
                assert(sphere_bytes(s)[i] == le_bytes(s._padding[1])[i - 72]);
            } else {
                assert(sphere_bytes(s)[i] == le_bytes(s._padding[2])[i - 76]);
            }
        }
    }
}

/// Layout stability of Triangle: 96 bytes; three vertices then the surface,
/// no extra padding because both parts are already 16-byte multiples.
pub proof fn lemma_triangle_layout(t: Triangle)
    ensures
        triangle_bytes(t).len() == TRIANGLE_STRIDE,
        triangle_bytes(t).len() % 16 == 0,
        triangle_bytes(t).subrange(0, 16) == point_bytes(t.vertices[0]),
        triangle_bytes(t).subrange(16, 32) == point_bytes(t.vertices[1]),
        triangle_bytes(t).subrange(32, 48) == point_bytes(t.vertices[2]),
        triangle_bytes(t).subrange(48, 96) == surface_bytes(t.surface),
        t.zero_padded() ==> forall|i: int| 84 <= i < 96 ==> triangle_bytes(t)[i] == 0,
{
    broadcast use lemma_le_bytes_len;

    assert(triangle_bytes(t).subrange(0, 16) =~= point_bytes(t.vertices[0]));
    assert(triangle_bytes(t).subrange(16, 32) =~= point_bytes(t.vertices[1]));
    assert(triangle_bytes(t).subrange(32, 48) =~= point_bytes(t.vertices[2]));
    assert(triangle_bytes(t).subrange(48, 96) =~= surface_bytes(t.surface));
    if t.zero_padded() {
        lemma_surface_layout(t.surface);
        assert forall|i: int| 84 <= i < 96 implies triangle_bytes(t)[i] == 0 by {
            assert(triangle_bytes(t)[i] == surface_bytes(t.surface)[i - 48]);
        }
    }
}

} // verus!
