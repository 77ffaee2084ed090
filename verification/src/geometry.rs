use vstd::prelude::*;

verus! {

/// Bit pattern of the 32-bit IEEE-754 value one, the default fourth
/// component (homogeneous coordinate, alpha) when a record is built from a
/// 3-component value.
pub const UNIT_BITS: u32 = 0x3F80_0000;

/// A homogeneous position: four device scalars, each carried as its 32-bit
/// bit pattern. The fourth component defaults to one when constructed from a
/// 3-component value, so the device can apply uniform transform math.
#[derive(Clone, Copy, Debug, PartialEq, Eq, Structural)]
pub struct Point {
    pub x: u32,
    pub y: u32,
    pub z: u32,
    pub w: u32,
}

impl From<(u32, u32, u32, u32)> for Point {
    fn from(value: (u32, u32, u32, u32)) -> Self {
        Self { x: value.0, y: value.1, z: value.2, w: value.3 }
    }
}

impl vstd::std_specs::convert::FromSpecImpl<(u32, u32, u32, u32)> for Point {
    open spec fn obeys_from_spec() -> bool {
        true
    }

    open spec fn from_spec(value: (u32, u32, u32, u32)) -> Point {
        Point { x: value.0, y: value.1, z: value.2, w: value.3 }
    }
}

impl From<(u32, u32, u32)> for Point {
    fn from(value: (u32, u32, u32)) -> Self {
        Self { x: value.0, y: value.1, z: value.2, w: UNIT_BITS }
    }
}

impl vstd::std_specs::convert::FromSpecImpl<(u32, u32, u32)> for Point {
    open spec fn obeys_from_spec() -> bool {
        true
    }

    open spec fn from_spec(value: (u32, u32, u32)) -> Point {
        Point { x: value.0, y: value.1, z: value.2, w: UNIT_BITS }
    }
}

impl From<[u32; 4]> for Point {
    fn from(value: [u32; 4]) -> Self {
        Self { x: value[0], y: value[1], z: value[2], w: value[3] }
    }
}

impl vstd::std_specs::convert::FromSpecImpl<[u32; 4]> for Point {
    open spec fn obeys_from_spec() -> bool {
        true
    }

    open spec fn from_spec(value: [u32; 4]) -> Point {
        Point { x: value[0], y: value[1], z: value[2], w: value[3] }
    }
}

impl From<[u32; 3]> for Point {
    fn from(value: [u32; 3]) -> Self {
        Self { x: value[0], y: value[1], z: value[2], w: UNIT_BITS }
    }
}

impl vstd::std_specs::convert::FromSpecImpl<[u32; 3]> for Point {
    open spec fn obeys_from_spec() -> bool {
        true
    }

    open spec fn from_spec(value: [u32; 3]) -> Point {
        Point { x: value[0], y: value[1], z: value[2], w: UNIT_BITS }
    }
}

/// An RGBA color: four device scalars as bit patterns, alpha defaulting to
/// one when constructed from a 3-component value.
#[derive(Clone, Copy, Debug, PartialEq, Eq, Structural)]
pub struct Color {
    pub r: u32,
    pub g: u32,
    pub b: u32,
    pub a: u32,
}

impl From<(u32, u32, u32, u32)> for Color {
    fn from(value: (u32, u32, u32, u32)) -> Self {
        Self { r: value.0, g: value.1, b: value.2, a: value.3 }
    }
}

impl vstd::std_specs::convert::FromSpecImpl<(u32, u32, u32, u32)> for Color {
    open spec fn obeys_from_spec() -> bool {
        true
    }

    open spec fn from_spec(value: (u32, u32, u32, u32)) -> Color {
        Color { r: value.0, g: value.1, b: value.2, a: value.3 }
    }
}

impl From<(u32, u32, u32)> for Color {
    fn from(value: (u32, u32, u32)) -> Self {
        Self { r: value.0, g: value.1, b: value.2, a: UNIT_BITS }
    }
}

impl vstd::std_specs::convert::FromSpecImpl<(u32, u32, u32)> for Color {
    open spec fn obeys_from_spec() -> bool {
        true
    }

    open spec fn from_spec(value: (u32, u32, u32)) -> Color {
        Color { r: value.0, g: value.1, b: value.2, a: UNIT_BITS }
    }
}

impl From<[u32; 4]> for Color {
    fn from(value: [u32; 4]) -> Self {
        Self { r: value[0], g: value[1], b: value[2], a: value[3] }
    }
}

impl vstd::std_specs::convert::FromSpecImpl<[u32; 4]> for Color {
    open spec fn obeys_from_spec() -> bool {
        true
    }

    open spec fn from_spec(value: [u32; 4]) -> Color {
        Color { r: value[0], g: value[1], b: value[2], a: value[3] }
    }
}

impl From<[u32; 3]> for Color {
    fn from(value: [u32; 3]) -> Self {
        Self { r: value[0], g: value[1], b: value[2], a: UNIT_BITS }
    }
}

impl vstd::std_specs::convert::FromSpecImpl<[u32; 3]> for Color {
    open spec fn obeys_from_spec() -> bool {
        true
    }

    open spec fn from_spec(value: [u32; 3]) -> Color {
        Color { r: value[0], g: value[1], b: value[2], a: UNIT_BITS }
    }
}

/// Surface appearance of a primitive. The trailing padding scalars are
/// load-bearing: they round the record up to the next 16-byte boundary, the
/// mandatory alignment unit for a buffer of structs read by a compute kernel.
#[derive(Clone, Copy, Debug)]
pub struct Surface {
    pub diffuse_color: Color,
    pub specular_color: Color,
    pub specular_intensity: u32,
    pub _padding: [u32; 3],
}

impl Surface {
    /// True when every explicit padding scalar is zero, so that serializing
    /// the record can leak nothing through the padding bytes.
    pub open spec fn zero_padded(self) -> bool {
        self._padding[0] == 0 && self._padding[1] == 0 && self._padding[2] == 0
    }

    pub fn new(diffuse_color: Color, specular_color: Color, specular_intensity: u32) -> (s: Self)
        ensures
            s.diffuse_color == diffuse_color,
            s.specular_color == specular_color,
            s.specular_intensity == specular_intensity,
            s.zero_padded(),
    {
        Self { diffuse_color, specular_color, specular_intensity, _padding: [0, 0, 0] }
    }
}

/// A sphere primitive, padded to a 16-byte multiple like every device record.
#[derive(Clone, Copy, Debug)]
pub struct Sphere {
    pub center: Point,
    pub surface: Surface,
    pub radius: u32,
    pub _padding: [u32; 3],
}

impl Sphere {
    /// True when the record's own padding and its surface's padding are zero.
    pub open spec fn zero_padded(self) -> bool {
        self.surface.zero_padded() && self._padding[0] == 0 && self._padding[1] == 0
            && self._padding[2] == 0
    }

    pub fn new(center: Point, surface: Surface, radius: u32) -> (s: Self)
        ensures
            s.center == center,
            s.surface == surface,
            s.radius == radius,
            s._padding[0] == 0 && s._padding[1] == 0 && s._padding[2] == 0,
    {
        Self { center, surface, radius, _padding: [0, 0, 0] }
    }
}

/// A triangle primitive: three vertices and a surface. Point and Surface are
/// already 16-byte multiples, so no extra padding is needed.
#[derive(Clone, Copy, Debug)]
pub struct Triangle {
    pub vertices: [Point; 3],
    pub surface: Surface,
}

impl Triangle {
    pub open spec fn zero_padded(self) -> bool {
        self.surface.zero_padded()
    }

    pub fn new(vertices: [Point; 3], surface: Surface) -> (t: Self)
        ensures
            t.vertices == vertices,
            t.surface == surface,
    {
        Self { vertices, surface }
    }
}

} // verus!
