//! Responsive positions: an anchor plus two responsive offsets, resolved to
//! a physical point relative to an element's geometric center.

use vstd::prelude::*;
use crate::fixed::{
    fraction_in_range, size_in_range, Vec2I, FRACTION_LIMIT, FRACTION_ONE, POSITION_LIMIT,
};
use crate::length::{
    length_in_range, resolved_or_zero, scale_by_fraction, ResponsiveLength,
};

verus! {

/// A responsive position relative to a UI element.
///
/// `anchor` components are fractions in thousandths, conventionally within
/// `[-500, 500]` (`-FRACTION_ONE/2` to `FRACTION_ONE/2`): `-500` is one half
/// extent toward the negative side, `0` the center, `500` one half extent
/// toward the positive side. Values outside that range stay mathematically
/// valid extrapolations. `x` and `y` are offsets from the anchor point,
/// authored relative to the anchor's own side.
#[derive(Clone, Copy, PartialEq, Eq, Structural, Debug)]
pub struct Position {
    /// Normalized anchor point, components in thousandths.
    pub anchor: Vec2I,
    /// Responsive horizontal position relative to the anchor point.
    pub x: ResponsiveLength,
    /// Responsive vertical position relative to the anchor point.
    pub y: ResponsiveLength,
}

/// The position's components are within the ranges the resolver accepts.
pub open spec fn position_in_range(p: Position) -> bool {
    &&& fraction_in_range(p.anchor.x)
    &&& fraction_in_range(p.anchor.y)
    &&& length_in_range(p.x)
    &&& length_in_range(p.y)
}

/// The anchor's own contribution on one axis: the fraction `anchor` of the
/// element's size, placing the anchor point relative to the center.
pub open spec fn anchor_term(anchor: i64, size: i64) -> int {
    (size * anchor) / (FRACTION_ONE as int)
}

/// The direction an offset moves the point on one axis: inward from the
/// anchored side. On a positive-side anchor the offset pulls toward the
/// negative direction; at the center or on the negative side it pushes
/// toward the positive direction.
pub open spec fn axis_direction(anchor: i64) -> int {
    if anchor > 0 {
        -1
    } else {
        1
    }
}

/// The resolved coordinate on one axis: anchor contribution plus the
/// directed offset, the offset substituting `0` when unresolved.
pub open spec fn resolve_axis_spec(
    anchor: i64,
    offset: ResponsiveLength,
    scale_factor: i64,
    size: i64,
) -> int {
    anchor_term(anchor, size) + axis_direction(anchor) * resolved_or_zero(
        offset,
        scale_factor,
        size,
    )
}

/// Resolve one axis of a position.
fn resolve_axis(
    anchor: i64,
    offset: &ResponsiveLength,
    scale_factor: i64,
    size: i64,
    target_size: Vec2I,
) -> (r: i64)
    requires
        fraction_in_range(anchor),
        length_in_range(*offset),
        0 <= scale_factor <= FRACTION_LIMIT,
        size_in_range(size),
    ensures
        r as int == resolve_axis_spec(anchor, *offset, scale_factor, size),
        -POSITION_LIMIT <= r <= POSITION_LIMIT,
{
    let term = scale_by_fraction(size, anchor);
    let off = offset.resolve_or_zero(scale_factor, size, target_size);
    if anchor > 0 {
        term - off
    } else {
        term + off
    }
}

impl Position {
    /// Position at the given normalized anchor point, with zero offsets.
    pub fn anchor(anchor: Vec2I) -> (r: Position)
        ensures
            r == (Position {
                anchor,
                x: ResponsiveLength::Px(0),
                y: ResponsiveLength::Px(0),
            }),
    {
        Position { anchor, x: ResponsiveLength::Px(0), y: ResponsiveLength::Px(0) }
    }

    /// Create a new position.
    pub fn new(anchor: Vec2I, x: ResponsiveLength, y: ResponsiveLength) -> (r: Position)
        ensures
            r == (Position { anchor, x, y }),
    {
        Position { anchor, x, y }
    }

    /// This position with the given `x` and `y` offsets.
    pub fn at(self, x: ResponsiveLength, y: ResponsiveLength) -> (r: Position)
        ensures
            r == (Position { x, y, ..self }),
    {
        Position { x, y, ..self }
    }

    /// This position with the given `x` offset.
    pub fn at_x(self, x: ResponsiveLength) -> (r: Position)
        ensures
            r == (Position { x, ..self }),
    {
        Position { x, ..self }
    }

    /// This position with the given `y` offset.
    pub fn at_y(self, y: ResponsiveLength) -> (r: Position)
        ensures
            r == (Position { y, ..self }),
    {
        Position { y, ..self }
    }

    /// This position with pixel offsets.
    pub fn at_px(self, x: i64, y: i64) -> (r: Position)
        ensures
            r == (Position { x: ResponsiveLength::Px(x), y: ResponsiveLength::Px(y), ..self }),
    {
        self.at(ResponsiveLength::Px(x), ResponsiveLength::Px(y))
    }

    /// This position with percentage offsets, in thousandths.
    pub fn at_percent(self, x: i64, y: i64) -> (r: Position)
        ensures
            r == (Position {
                x: ResponsiveLength::Percent(x),
                y: ResponsiveLength::Percent(y),
                ..self
            }),
    {
        self.at(ResponsiveLength::Percent(x), ResponsiveLength::Percent(y))
    }

    /// This position with the given anchor point.
    pub fn with_anchor(self, anchor: Vec2I) -> (r: Position)
        ensures
            r == (Position { anchor, ..self }),
    {
        Position { anchor, ..self }
    }

    /// Position relative to the top-left corner.
    pub fn top_left(x: ResponsiveLength, y: ResponsiveLength) -> (r: Position)
        ensures
            r == (Position { anchor: Vec2I { x: -500i64, y: -500i64 }, x, y }),
    {
        Position::anchor(Vec2I { x: -500, y: -500 }).at(x, y)
    }

    /// Position relative to the center of the left edge.
    pub fn left(x: ResponsiveLength, y: ResponsiveLength) -> (r: Position)
        ensures
            r == (Position { anchor: Vec2I { x: -500i64, y: 0i64 }, x, y }),
    {
        Position::anchor(Vec2I { x: -500, y: 0 }).at(x, y)
    }

    /// Position relative to the bottom-left corner.
    pub fn bottom_left(x: ResponsiveLength, y: ResponsiveLength) -> (r: Position)
        ensures
            r == (Position { anchor: Vec2I { x: -500i64, y: 500i64 }, x, y }),
    {
        Position::anchor(Vec2I { x: -500, y: 500 }).at(x, y)
    }

    /// Position relative to the center of the top edge.
    pub fn top(x: ResponsiveLength, y: ResponsiveLength) -> (r: Position)
        ensures
            r == (Position { anchor: Vec2I { x: 0i64, y: -500i64 }, x, y }),
    {
        Position::anchor(Vec2I { x: 0, y: -500 }).at(x, y)
    }

    /// Position relative to the element's center.
    pub fn center(x: ResponsiveLength, y: ResponsiveLength) -> (r: Position)
        ensures
            r == (Position { anchor: Vec2I { x: 0i64, y: 0i64 }, x, y }),
    {
        Position::anchor(Vec2I { x: 0, y: 0 }).at(x, y)
    }

    /// Position relative to the center of the bottom edge.
    pub fn bottom(x: ResponsiveLength, y: ResponsiveLength) -> (r: Position)
        ensures
            r == (Position { anchor: Vec2I { x: 0i64, y: 500i64 }, x, y }),
    {
        Position::anchor(Vec2I { x: 0, y: 500 }).at(x, y)
    }

    /// Position relative to the top-right corner.
    pub fn top_right(x: ResponsiveLength, y: ResponsiveLength) -> (r: Position)
        ensures
            r == (Position { anchor: Vec2I { x: 500i64, y: -500i64 }, x, y }),
    {
        Position::anchor(Vec2I { x: 500, y: -500 }).at(x, y)
    }

    /// Position relative to the center of the right edge.
    pub fn right(x: ResponsiveLength, y: ResponsiveLength) -> (r: Position)
        ensures
            r == (Position { anchor: Vec2I { x: 500i64, y: 0i64 }, x, y }),
    {
        Position::anchor(Vec2I { x: 500, y: 0 }).at(x, y)
    }

    /// Position relative to the bottom-right corner.
    pub fn bottom_right(x: ResponsiveLength, y: ResponsiveLength) -> (r: Position)
        ensures
            r == (Position { anchor: Vec2I { x: 500i64, y: 500i64 }, x, y }),
    {
        Position::anchor(Vec2I { x: 500, y: 500 }).at(x, y)
    }

    /// Resolve the position into physical coordinates relative to the
    /// element's center. Per axis: the anchor's fraction of the element size,
    /// plus the resolved offset directed inward from the anchored side.
    pub fn resolve(
        self,
        scale_factor: i64,
        physical_size: Vec2I,
        physical_target_size: Vec2I,
    ) -> (r: Vec2I)
        requires
            position_in_range(self),
            0 <= scale_factor <= FRACTION_LIMIT,
            size_in_range(physical_size.x),
            size_in_range(physical_size.y),
        ensures
            r.x as int == resolve_axis_spec(self.anchor.x, self.x, scale_factor, physical_size.x),
            r.y as int == resolve_axis_spec(self.anchor.y, self.y, scale_factor, physical_size.y),
            -POSITION_LIMIT <= r.x <= POSITION_LIMIT,
            -POSITION_LIMIT <= r.y <= POSITION_LIMIT,
    {
        Vec2I {
            x: resolve_axis(
                self.anchor.x,
                &self.x,
                scale_factor,
                physical_size.x,
                physical_target_size,
            ),
            y: resolve_axis(
                self.anchor.y,
                &self.y,
                scale_factor,
                physical_size.y,
                physical_target_size,
            ),
        }
    }
}

impl Default for Position {
    /// The element's center, with zero offsets.
    fn default() -> (r: Position)
        ensures
            r == (Position {
                anchor: Vec2I { x: 0i64, y: 0i64 },
                x: ResponsiveLength::Px(0),
                y: ResponsiveLength::Px(0),
            }),
    {
        Position::anchor(Vec2I { x: 0, y: 0 })
    }
}

impl From<ResponsiveLength> for Position {
    /// A centered position with the given horizontal offset.
    fn from(x: ResponsiveLength) -> (r: Position)
    {
        Position {
            anchor: Vec2I { x: 0, y: 0 },
            x,
            y: ResponsiveLength::Px(0),
        }
    }
}

impl vstd::std_specs::convert::FromSpecImpl<ResponsiveLength> for Position {
    open spec fn obeys_from_spec() -> bool {
        true
    }

    open spec fn from_spec(x: ResponsiveLength) -> Position {
        Position { anchor: Vec2I { x: 0i64, y: 0i64 }, x, y: ResponsiveLength::Px(0) }
    }
}

impl From<(ResponsiveLength, ResponsiveLength)> for Position {
    /// A centered position with the given offsets.
    fn from(xy: (ResponsiveLength, ResponsiveLength)) -> (r: Position)
    {
        Position { anchor: Vec2I { x: 0, y: 0 }, x: xy.0, y: xy.1 }
    }
}

impl vstd::std_specs::convert::FromSpecImpl<(ResponsiveLength, ResponsiveLength)> for Position {
    open spec fn obeys_from_spec() -> bool {
        true
    }

    open spec fn from_spec(xy: (ResponsiveLength, ResponsiveLength)) -> Position {
        Position { anchor: Vec2I { x: 0i64, y: 0i64 }, x: xy.0, y: xy.1 }
    }
}

/// With a zero offset the resolved coordinate is exactly the anchor
/// contribution `size * anchor / FRACTION_ONE`; it is `0` at a center
/// anchor, and exactly plus or minus half the size at a half-extent anchor
/// of an even size.
pub proof fn lemma_resolve_zero_offset(anchor: i64, scale_factor: i64, size: i64)
    requires
        fraction_in_range(anchor),
        0 <= scale_factor <= FRACTION_LIMIT,
        size_in_range(size),
    ensures
        resolve_axis_spec(anchor, ResponsiveLength::Px(0), scale_factor, size) == anchor_term(
            anchor,
            size,
        ),
        anchor == 0 ==> resolve_axis_spec(anchor, ResponsiveLength::Px(0), scale_factor, size)
            == 0,
        anchor == 500 && size % 2 == 0 ==> resolve_axis_spec(
            anchor,
            ResponsiveLength::Px(0),
            scale_factor,
            size,
        ) == size / 2,
        anchor == -500 && size % 2 == 0 ==> resolve_axis_spec(
            anchor,
            ResponsiveLength::Px(0),
            scale_factor,
            size,
        ) == -(size / 2),
{
    assert(0 * scale_factor == 0) by (nonlinear_arith);
    assert(0int / (FRACTION_ONE as int) == 0) by {
        vstd::arithmetic::div_mod::lemma_div_multiples_vanish(0, FRACTION_ONE as int);
    }
    if anchor == 0 {
        assert(size * 0 == 0) by (nonlinear_arith);
    }
    if size % 2 == 0 {
        let h = size as int / 2;
        vstd::arithmetic::div_mod::lemma_fundamental_div_mod(size as int, 2);
        if anchor == 500 {
            assert(size as int * 500 == 1000 * h) by (nonlinear_arith)
                requires
                    size as int == 2 * h,
            ;
            vstd::arithmetic::div_mod::lemma_div_multiples_vanish(h, 1000);
        }
        if anchor == -500 {
            assert(size as int * -500 == 1000 * -h) by (nonlinear_arith)
                requires
                    size as int == 2 * h,
            ;
            vstd::arithmetic::div_mod::lemma_div_multiples_vanish(-h, 1000);
        }
    }
}

/// A positive pixel offset moves the resolved coordinate strictly inward:
/// below the anchor contribution on a positive-side anchor, above it on a
/// center or negative-side anchor. `px * scale_factor >= FRACTION_ONE` keeps
/// the resolved offset at least one unit.
pub proof fn lemma_offset_pulls_inward(anchor: i64, px: i64, scale_factor: i64, size: i64)
    requires
        fraction_in_range(anchor),
        crate::fixed::coord_in_range(px),
        0 <= scale_factor <= FRACTION_LIMIT,
        size_in_range(size),
        px * scale_factor >= FRACTION_ONE,
    ensures
        anchor > 0 ==> resolve_axis_spec(anchor, ResponsiveLength::Px(px), scale_factor, size)
            < anchor_term(anchor, size),
        anchor <= 0 ==> resolve_axis_spec(anchor, ResponsiveLength::Px(px), scale_factor, size)
            > anchor_term(anchor, size),
{
    let off = (px * scale_factor) / (FRACTION_ONE as int);
    assert(off >= 1) by {
        vstd::arithmetic::div_mod::lemma_div_is_ordered(
            FRACTION_ONE as int,
            px * scale_factor,
            FRACTION_ONE as int,
        );
        vstd::arithmetic::div_mod::lemma_div_multiples_vanish(1, FRACTION_ONE as int);
    }
}

} // verus!
