//! Widget geometry, hit-testing, the pointer-to-axis mappings, and the pure
//! draw description the control produces each frame.
//!
//! Pointer positions and widget bounds are integer pixel coordinates; axis
//! values come out in normalized ticks (see [`crate::units`]). Both mapping
//! policies treat the two axes independently, and a degenerate axis (zero
//! size) maps every position to zero rather than dividing by it.

use vstd::prelude::*;
use vstd::arithmetic::div_mod::lemma_multiply_divide_le;
use vstd::arithmetic::mul::lemma_mul_inequality;
use crate::units::{NORM_ONE, is_normalized};

verus! {

/// A pointer position, in pixels.
#[derive(Clone, Copy, PartialEq, Eq, Structural, Debug)]
pub struct PointPx {
    pub x: i32,
    pub y: i32,
}

/// A widget's bounds at layout time: origin plus width and height, in pixels.
#[derive(Clone, Copy, PartialEq, Eq, Structural, Debug)]
pub struct Bounds {
    pub x: i32,
    pub y: i32,
    pub width: u32,
    pub height: u32,
}

/// Whether `p` lies inside `b`: closed on the origin edges, open on the far
/// edges.
pub open spec fn spec_contains(b: Bounds, p: PointPx) -> bool {
    b.x <= p.x && (p.x as int) < b.x as int + b.width as int && b.y <= p.y && (p.y as int) < b.y
        as int + b.height as int
}

impl Bounds {
    /// Hit-test: whether the pointer position lies inside these bounds.
    pub fn contains(&self, p: &PointPx) -> (r: bool)
        ensures
            r == spec_contains(*self, *p),
    {
        self.x <= p.x && (p.x as i64) < self.x as i64 + self.width as i64 && self.y <= p.y && (p.y
            as i64) < self.y as i64 + self.height as i64
    }
}

/// How a pointer position becomes a pair of axis values.
#[derive(Clone, Copy, PartialEq, Eq, Structural, Debug)]
pub enum MapMode {
    /// `(coord - origin) / size`, clamped to the unit range at the source:
    /// the marker jumps to the pointer.
    Absolute,
    /// `(coord - center) / (size / 2)`, not clamped at the source: a
    /// centered bipolar control. Clamping, if any, happens at the
    /// parameter-write boundary.
    RelativeFromCenter,
}

/// The absolute mapping of one axis, in ticks: the pointer's position within
/// the bounds as a fraction of the axis size, clamped to `[0, NORM_ONE]`.
/// An axis of size zero maps to zero.
pub open spec fn spec_map_axis_absolute(coord: int, origin: int, size: int) -> int {
    if size <= 0 {
        0
    } else if coord - origin <= 0 {
        0
    } else if coord - origin >= size {
        NORM_ONE as int
    } else {
        (coord - origin) * NORM_ONE as int / size
    }
}

/// The relative-from-center mapping of one axis, in ticks: the pointer's
/// offset from the axis center as a fraction of half the axis size, with the
/// magnitude rounded toward zero. Not clamped. An axis too small to have a
/// half size maps to zero.
pub open spec fn spec_map_axis_relative(coord: int, origin: int, size: int) -> int {
    let half = size / 2;
    if half <= 0 {
        0
    } else {
        let center = origin + half;
        if coord >= center {
            (coord - center) * NORM_ONE as int / half
        } else {
            -((center - coord) * NORM_ONE as int / half)
        }
    }
}

/// One axis under either mapping policy; the raw result may leave the unit
/// range only under [`MapMode::RelativeFromCenter`].
pub open spec fn spec_map_axis(mode: MapMode, coord: int, origin: int, size: int) -> int {
    match mode {
        MapMode::Absolute => spec_map_axis_absolute(coord, origin, size),
        MapMode::RelativeFromCenter => spec_map_axis_relative(coord, origin, size),
    }
}

/// Map one pointer coordinate to a raw axis value under the given policy.
pub fn map_axis(mode: MapMode, coord: i32, origin: i32, size: u32) -> (raw: i64)
    ensures
        raw == spec_map_axis(mode, coord as int, origin as int, size as int),
        mode is Absolute ==> 0 <= raw <= NORM_ONE,
{
    match mode {
        MapMode::Absolute => {
            if size == 0 {
                return 0;
            }
            let d: i64 = coord as i64 - origin as i64;
            if d <= 0 {
                0
            } else if d >= size as i64 {
                NORM_ONE as i64
            } else {
                let q: u64 = d as u64 * NORM_ONE as u64 / size as u64;
                proof {
                    assert(d as int * NORM_ONE as int <= size as int * NORM_ONE as int) by {
                        lemma_mul_inequality(d as int, size as int, NORM_ONE as int);
                    }
                    assert(d as int * NORM_ONE as int / size as int <= NORM_ONE as int) by {
                        lemma_multiply_divide_le(
                            d as int * NORM_ONE as int,
                            size as int,
                            NORM_ONE as int,
                        );
                    }
                }
                q as i64
            }
        },
        MapMode::RelativeFromCenter => {
            let half: u32 = size / 2;
            if half == 0 {
                return 0;
            }
            let center: i64 = origin as i64 + half as i64;
            if coord as i64 >= center {
                let d: u64 = (coord as i64 - center) as u64;
                (d * NORM_ONE as u64 / half as u64) as i64
            } else {
                let d: u64 = (center - coord as i64) as u64;
                -((d * NORM_ONE as u64 / half as u64) as i64)
            }
        },
    }
}

/// An 8-bit RGB color of the draw description.
#[derive(Clone, Copy, PartialEq, Eq, Structural, Debug)]
pub struct Rgb {
    pub r: u8,
    pub g: u8,
    pub b: u8,
}

/// One filled, bordered rectangle of the draw description.
#[derive(Clone, Copy, PartialEq, Eq, Structural, Debug)]
pub struct Quad {
    pub x: i64,
    pub y: i64,
    pub width: u32,
    pub height: u32,
    pub border_width: u32,
    pub border_radius: u32,
    pub border_color: Rgb,
    pub fill: Rgb,
}

/// What the control draws each frame: its frame rectangle and the marker
/// rectangle at the mapped position. A pure description; no drawing happens
/// here.
#[derive(Clone, Copy, PartialEq, Eq, Structural, Debug)]
pub struct DrawDescription {
    pub frame: Quad,
    pub marker: Quad,
}

} // verus!
