//! Radial end shapes: the half-extents (radii) of a radial gradient's end
//! ellipse or circle, computed from the element's size and the gradient's
//! center.

use vstd::prelude::*;
use vstd::math::{max, min};
use crate::fixed::{
    size_in_range, Vec2I, COORD_LIMIT, FRACTION_LIMIT, POSITION_LIMIT,
};
use crate::length::{length_in_range, resolved_or_zero, ResponsiveLength};

verus! {

/// The end shape of a radial gradient.
#[derive(Clone, Copy, PartialEq, Eq, Structural, Debug)]
pub enum RadialGradientShape {
    /// A circle with radius equal to the distance from the center to the
    /// closest side.
    ClosestSide,
    /// A circle with radius equal to the distance from the center to the
    /// farthest side.
    FarthestSide,
    /// An ellipse with extents equal to the per-axis distances from the
    /// center to the nearest corner.
    ClosestCorner,
    /// An ellipse with extents equal to the per-axis distances from the
    /// center to the farthest corner.
    FarthestCorner,
    /// A circle with an explicit radius.
    Circle(ResponsiveLength),
    /// An ellipse with explicit per-axis radii.
    Ellipse(ResponsiveLength, ResponsiveLength),
}

/// The distance from coordinate `p` to the nearer of the two sides sitting
/// at `-h` and `h`, measured perpendicular to that side.
pub open spec fn close_side(p: int, h: int) -> int {
    min(abs1(-h - p), abs1(h - p))
}

/// The distance from coordinate `p` to the farther of the two sides sitting
/// at `-h` and `h`, measured perpendicular to that side.
pub open spec fn far_side(p: int, h: int) -> int {
    max(abs1(-h - p), abs1(h - p))
}

/// Absolute value.
pub open spec fn abs1(v: int) -> int {
    if v >= 0 {
        v
    } else {
        -v
    }
}

impl Default for RadialGradientShape {
    /// The closest-corner ellipse.
    fn default() -> (r: RadialGradientShape)
        ensures
            r == RadialGradientShape::ClosestCorner,
    {
        RadialGradientShape::ClosestCorner
    }
}

/// The shape's per-axis validity: explicit radii within range.
pub open spec fn shape_in_range(shape: RadialGradientShape) -> bool {
    match shape {
        RadialGradientShape::Circle(r) => length_in_range(r),
        RadialGradientShape::Ellipse(rx, ry) => length_in_range(rx) && length_in_range(ry),
        _ => true,
    }
}

/// The two half-extents of the end shape: `p` is the gradient center
/// relative to the element's center, `size` the element's physical size.
/// Sides use half the size per axis; corners keep the axes independent, so
/// the ellipse passes through (or away from) the corresponding corner.
pub open spec fn shape_radii_spec(
    shape: RadialGradientShape,
    p: Vec2I,
    scale_factor: i64,
    size: Vec2I,
) -> (int, int) {
    let hx = (size.x as int) / 2;
    let hy = (size.y as int) / 2;
    match shape {
        RadialGradientShape::ClosestSide => {
            let c = min(close_side(p.x as int, hx), close_side(p.y as int, hy));
            (c, c)
        },
        RadialGradientShape::FarthestSide => {
            let c = max(far_side(p.x as int, hx), far_side(p.y as int, hy));
            (c, c)
        },
        RadialGradientShape::ClosestCorner => (
            close_side(p.x as int, hx),
            close_side(p.y as int, hy),
        ),
        RadialGradientShape::FarthestCorner => (far_side(p.x as int, hx), far_side(p.y as int, hy)),
        RadialGradientShape::Circle(r) => {
            let v = resolved_or_zero(r, scale_factor, size.x);
            (v, v)
        },
        RadialGradientShape::Ellipse(rx, ry) => (
            resolved_or_zero(rx, scale_factor, size.x),
            resolved_or_zero(ry, scale_factor, size.y),
        ),
    }
}

/// Compute `close_side` on one axis.
fn close_side_exec(p: i64, h: i64) -> (r: i64)
    requires
        -POSITION_LIMIT <= p <= POSITION_LIMIT,
        0 <= h <= COORD_LIMIT,
    ensures
        r as int == close_side(p as int, h as int),
        0 <= r <= POSITION_LIMIT + COORD_LIMIT,
{
    let a = abs_exec(-h - p);
    let b = abs_exec(h - p);
    if a <= b {
        a
    } else {
        b
    }
}

/// Compute `far_side` on one axis.
fn far_side_exec(p: i64, h: i64) -> (r: i64)
    requires
        -POSITION_LIMIT <= p <= POSITION_LIMIT,
        0 <= h <= COORD_LIMIT,
    ensures
        r as int == far_side(p as int, h as int),
        0 <= r <= POSITION_LIMIT + COORD_LIMIT,
{
    let a = abs_exec(-h - p);
    let b = abs_exec(h - p);
    if a >= b {
        a
    } else {
        b
    }
}

/// Absolute value of a bounded coordinate.
fn abs_exec(v: i64) -> (r: i64)
    requires
        i64::MIN < v,
    ensures
        r as int == abs1(v as int),
{
    if v >= 0 {
        v
    } else {
        -v
    }
}

impl RadialGradientShape {
    /// Resolve the physical half-extents of the end shape. `position` is the
    /// gradient's center relative to the element's center (from position
    /// resolution), `physical_size` the element's size. Implicit shapes
    /// measure distances to the element's sides or corners; explicit radii
    /// resolve through the responsive-length rules, unresolved ones
    /// degrading to `0`.
    pub fn resolve(
        &self,
        position: Vec2I,
        scale_factor: i64,
        physical_size: Vec2I,
        physical_target_size: Vec2I,
    ) -> (r: Vec2I)
        requires
            shape_in_range(*self),
            -POSITION_LIMIT <= position.x <= POSITION_LIMIT,
            -POSITION_LIMIT <= position.y <= POSITION_LIMIT,
            0 <= scale_factor <= FRACTION_LIMIT,
            size_in_range(physical_size.x),
            size_in_range(physical_size.y),
        ensures
            r.x as int == shape_radii_spec(*self, position, scale_factor, physical_size).0,
            r.y as int == shape_radii_spec(*self, position, scale_factor, physical_size).1,
    {
        let hx = crate::fixed::floor_div(physical_size.x, 2);
        let hy = crate::fixed::floor_div(physical_size.y, 2);
        match self {
            RadialGradientShape::ClosestSide => {
                let cx = close_side_exec(position.x, hx);
                let cy = close_side_exec(position.y, hy);
                let c = if cx <= cy {
                    cx
                } else {
                    cy
                };
                Vec2I { x: c, y: c }
            },
            RadialGradientShape::FarthestSide => {
                let cx = far_side_exec(position.x, hx);
                let cy = far_side_exec(position.y, hy);
                let c = if cx >= cy {
                    cx
                } else {
                    cy
                };
                Vec2I { x: c, y: c }
            },
            RadialGradientShape::ClosestCorner => Vec2I {
                x: close_side_exec(position.x, hx),
                y: close_side_exec(position.y, hy),
            },
            RadialGradientShape::FarthestCorner => Vec2I {
                x: far_side_exec(position.x, hx),
                y: far_side_exec(position.y, hy),
            },
            RadialGradientShape::Circle(radius) => {
                let v = radius.resolve_or_zero(scale_factor, physical_size.x, physical_target_size);
                Vec2I { x: v, y: v }
            },
            RadialGradientShape::Ellipse(rx, ry) => Vec2I {
                x: rx.resolve_or_zero(scale_factor, physical_size.x, physical_target_size),
                y: ry.resolve_or_zero(scale_factor, physical_size.y, physical_target_size),
            },
        }
    }
}

/// For one center and size, the implicit end-shape metrics are ordered on
/// each axis: closest side, then closest corner, then farthest corner, then
/// farthest side.
pub proof fn lemma_shape_metric_ordering(p: Vec2I, scale_factor: i64, size: Vec2I)
    ensures
        shape_radii_spec(RadialGradientShape::ClosestSide, p, scale_factor, size).0
            <= shape_radii_spec(RadialGradientShape::ClosestCorner, p, scale_factor, size).0,
        shape_radii_spec(RadialGradientShape::ClosestCorner, p, scale_factor, size).0
            <= shape_radii_spec(RadialGradientShape::FarthestCorner, p, scale_factor, size).0,
        shape_radii_spec(RadialGradientShape::FarthestCorner, p, scale_factor, size).0
            <= shape_radii_spec(RadialGradientShape::FarthestSide, p, scale_factor, size).0,
        shape_radii_spec(RadialGradientShape::ClosestSide, p, scale_factor, size).1
            <= shape_radii_spec(RadialGradientShape::ClosestCorner, p, scale_factor, size).1,
        shape_radii_spec(RadialGradientShape::ClosestCorner, p, scale_factor, size).1
            <= shape_radii_spec(RadialGradientShape::FarthestCorner, p, scale_factor, size).1,
        shape_radii_spec(RadialGradientShape::FarthestCorner, p, scale_factor, size).1
            <= shape_radii_spec(RadialGradientShape::FarthestSide, p, scale_factor, size).1,
{
}

} // verus!
