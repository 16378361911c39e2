//! Exact coordinates: pixel positions on the surface, and the normalized
//! positions that vertex data is written in.
//!
//! A normalized coordinate is kept as a ratio of two integers, so that the
//! mapping from pixels loses nothing. The host divides when it fills a vertex
//! buffer.

use vstd::prelude::*;

verus! {

/// The quotient `num / den`, with the division left undone.
///
/// A ratio whose denominator is zero stands for no number; dividing it in
/// floating point gives an infinity or a NaN, which is what a surface without
/// extent yields.
#[derive(Clone, Copy, Debug, PartialEq, Eq)]
pub struct Ratio {
    pub num: i64,
    pub den: i64,
}

impl Ratio {
    /// The ratio is a number, and that number is the integer `value`.
    pub open spec fn is_integer(self, value: int) -> bool {
        self.den > 0 && self.num == value * self.den
    }

    /// The ratio is a number in the closed interval from -1 to 1.
    pub open spec fn in_unit_range(self) -> bool {
        self.den > 0 && -self.den <= self.num <= self.den
    }
}

/// A position in normalized coordinates: both axes run from -1 to 1 across
/// the surface, x to the right and y upwards.
#[derive(Clone, Copy, Debug, PartialEq, Eq)]
pub struct NormalizedPoint {
    pub x: Ratio,
    pub y: Ratio,
}

/// The normalized position of the pixel `(x, y)` on a surface of
/// `width` by `height` pixels: `2x / width - 1` across and
/// `-(2y / height - 1)` upwards, each over the common denominator.
pub open spec fn normalized(x: i32, y: i32, width: u32, height: u32) -> NormalizedPoint {
    NormalizedPoint {
        x: Ratio { num: (2 * x - width) as i64, den: width as i64 },
        y: Ratio { num: (height - 2 * y) as i64, den: height as i64 },
    }
}

impl NormalizedPoint {
    /// Converts the surface-local pixel `(x, y)` to normalized coordinates.
    pub fn from_pixel(x: i32, y: i32, width: u32, height: u32) -> (point: NormalizedPoint)
        ensures
            point == normalized(x, y, width, height),
            point.x.den == width,
            point.x.num + width == 2 * x,
            point.y.den == height,
            point.y.num + 2 * y == height,
    {
        let x_wide: i64 = x as i64;
        let y_wide: i64 = y as i64;
        let width_wide: i64 = width as i64;
        let height_wide: i64 = height as i64;
        NormalizedPoint {
            x: Ratio { num: 2 * x_wide - width_wide, den: width_wide },
            y: Ratio { num: height_wide - 2 * y_wide, den: height_wide },
        }
    }
}

/// The pixel at the origin of a surface with extent is the top left corner,
/// `(-1, 1)`.
pub proof fn lemma_origin_is_top_left(width: u32, height: u32)
    requires
        width > 0,
        height > 0,
    ensures
        normalized(0, 0, width, height).x.is_integer(-1),
        normalized(0, 0, width, height).y.is_integer(1),
{
}

/// The pixel `(width, height)` of a surface with extent is the bottom right
/// corner, `(1, -1)`.
pub proof fn lemma_extent_is_bottom_right(x: i32, y: i32, width: u32, height: u32)
    requires
        width > 0,
        height > 0,
        x == width,
        y == height,
    ensures
        normalized(x, y, width, height).x.is_integer(1),
        normalized(x, y, width, height).y.is_integer(-1),
{
}

/// The pixel halfway along both axes of a surface with extent is the
/// center, `(0, 0)`.
pub proof fn lemma_middle_is_center(x: i32, y: i32, width: u32, height: u32)
    requires
        width > 0,
        height > 0,
        2 * x == width,
        2 * y == height,
    ensures
        normalized(x, y, width, height).x.is_integer(0),
        normalized(x, y, width, height).y.is_integer(0),
{
}

/// A pixel inside a surface with extent, or on its border, lies within the
/// normalized range on both axes.
pub proof fn lemma_inside_stays_in_range(x: i32, y: i32, width: u32, height: u32)
    requires
        width > 0,
        height > 0,
        0 <= x <= width,
        0 <= y <= height,
    ensures
        normalized(x, y, width, height).x.in_unit_range(),
        normalized(x, y, width, height).y.in_unit_range(),
{
}

/// Floats per vertex of the quad: a position and a texture coordinate.
pub const QUAD_STRIDE: usize = 4;

/// Vertices of the quad: two triangles.
pub const QUAD_VERTICES: usize = 6;

/// Bytes that a single-precision float takes in a vertex buffer.
pub const FLOAT_BYTES: i32 = 4;

/// Floats of a position in the quad, and of a texture coordinate.
pub const QUAD_PAIR: i32 = 2;

/// Bytes from one vertex of the quad to the next.
pub const QUAD_STRIDE_BYTES: i32 = 16;

/// Bytes from the start of a vertex of the quad to its texture coordinate.
pub const QUAD_TEXCOORD_OFFSET: i32 = 8;

/// Floats of a corner of a stroke's triangle: `x, y, z`.
pub const TRIANGLE_TRIPLE: i32 = 3;

/// Vertices of a stroke's triangle.
pub const TRIANGLE_VERTICES: i32 = 3;

/// The vertex data of the quad that covers the whole viewport, as two
/// triangles that share the diagonal from the top left to the bottom right.
/// Each vertex is four numbers: its position `x, y` in normalized coordinates
/// and the texture coordinate `u, v` that is sampled there.
pub open spec fn quad_vertex_data() -> Seq<i8> {
    seq![
        -1i8, 1i8, 0i8, 1i8,
        -1i8, -1i8, 0i8, 0i8,
        1i8, -1i8, 1i8, 0i8,
        -1i8, 1i8, 0i8, 1i8,
        1i8, -1i8, 1i8, 0i8,
        1i8, 1i8, 1i8, 1i8,
    ]
}

/// The vertex data of the viewport quad, ready to be widened to floats.
pub fn quad_vertices() -> (data: Vec<i8>)
    ensures
        data@ == quad_vertex_data(),
{
    let data: Vec<i8> = vec![
        -1i8, 1, 0, 1,
        -1, -1, 0, 0,
        1, -1, 1, 0,
        -1, 1, 0, 1,
        1, -1, 1, 0,
        1, 1, 1, 1,
    ];
    assert(data@ =~= quad_vertex_data());
    data
}

/// Every vertex of the quad sits on a corner of the viewport and samples the
/// texture at the matching corner: `u = (x + 1) / 2` and `v = (y + 1) / 2`.
pub proof fn lemma_quad_maps_texture_to_viewport(vertex: int)
    requires
        0 <= vertex < QUAD_VERTICES,
    ensures
        quad_vertex_data().len() == QUAD_VERTICES * QUAD_STRIDE,
        ({
            let at = vertex * QUAD_STRIDE;
            let x = quad_vertex_data()[at];
            let y = quad_vertex_data()[at + 1];
            let u = quad_vertex_data()[at + 2];
            let v = quad_vertex_data()[at + 3];
            &&& (x == -1 || x == 1)
            &&& (y == -1 || y == 1)
            &&& 2 * u == x + 1
            &&& 2 * v == y + 1
        }),
{
}

/// The byte layout of the quad agrees with its vertex data: a vertex is a
/// position followed by a texture coordinate, the texture coordinate
/// starts where the position ends, and the next vertex starts where the
/// texture coordinate ends.
pub proof fn lemma_quad_layout()
    ensures
        QUAD_STRIDE == QUAD_PAIR + QUAD_PAIR,
        QUAD_TEXCOORD_OFFSET == QUAD_PAIR * FLOAT_BYTES,
        QUAD_STRIDE_BYTES == QUAD_STRIDE * FLOAT_BYTES,
        quad_vertex_data().len() == QUAD_VERTICES * QUAD_STRIDE,
{
}

/// All four corners of the viewport are vertices of the quad.
pub proof fn lemma_quad_reaches_every_corner(x: int, y: int)
    requires
        x == -1 || x == 1,
        y == -1 || y == 1,
    ensures
        exists|vertex: int|
            0 <= vertex < QUAD_VERTICES && #[trigger] quad_vertex_data()[vertex * QUAD_STRIDE] == x
                && quad_vertex_data()[vertex * QUAD_STRIDE + 1] == y,
{
    let vertex: int = if x == -1 {
        if y == 1 { 0 } else { 1 }
    } else {
        if y == 1 { 5 } else { 2 }
    };
    assert(quad_vertex_data()[vertex * QUAD_STRIDE] == x);
}

} // verus!
