//! The gradient model: the three gradient variants, the layer-list wrapper
//! types, and the queries and resolution glue over them.

use vstd::prelude::*;
use crate::fixed::{
    size_in_range, Vec2I, FRACTION_LIMIT,
};
use crate::position::{position_in_range, resolve_axis_spec, Position};
use crate::shape::{shape_in_range, shape_radii_spec, RadialGradientShape};
use crate::stops::{
    angular_stops_in_range, resolve_angular_stops, resolve_color_stops, stop_angles, stop_points,
    stops_in_range, AngularColorStop, Color, ColorStop, ResolvedColorStop,
};
use crate::normalize::normalized_seq;

verus! {

/// Angle of a linear gradient transitioning from bottom to top, in
/// thousandths of a degree; angles increase clockwise.
pub const TO_TOP: i64 = 0;

/// Angle of a linear gradient transitioning from bottom-left to top-right.
pub const TO_TOP_RIGHT: i64 = 45_000;

/// Angle of a linear gradient transitioning from left to right.
pub const TO_RIGHT: i64 = 90_000;

/// Angle of a linear gradient transitioning from top-left to bottom-right.
pub const TO_BOTTOM_RIGHT: i64 = 135_000;

/// Angle of a linear gradient transitioning from top to bottom.
pub const TO_BOTTOM: i64 = 180_000;

/// Angle of a linear gradient transitioning from top-right to bottom-left.
pub const TO_BOTTOM_LEFT: i64 = 225_000;

/// Angle of a linear gradient transitioning from right to left.
pub const TO_LEFT: i64 = 270_000;

/// Angle of a linear gradient transitioning from bottom-right to top-left.
pub const TO_TOP_LEFT: i64 = 315_000;

/// A linear gradient: a direction and an ordered list of color stops.
#[derive(Clone, PartialEq, Debug)]
pub struct LinearGradient {
    /// The direction of the gradient, in thousandths of a degree; `0` points
    /// upward, angles increase clockwise.
    pub angle: i64,
    /// The list of color stops.
    pub stops: Vec<ColorStop>,
}

impl LinearGradient {
    /// Create a new linear gradient.
    pub fn new(angle: i64, stops: Vec<ColorStop>) -> (r: LinearGradient)
        ensures
            r.angle == angle,
            r.stops@ == stops@,
    {
        LinearGradient { angle, stops }
    }

    /// A linear gradient transitioning from bottom to top.
    pub fn to_top(stops: Vec<ColorStop>) -> (r: LinearGradient)
        ensures
            r.angle == TO_TOP,
            r.stops@ == stops@,
    {
        LinearGradient { angle: TO_TOP, stops }
    }

    /// A linear gradient transitioning from bottom-left to top-right.
    pub fn to_top_right(stops: Vec<ColorStop>) -> (r: LinearGradient)
        ensures
            r.angle == TO_TOP_RIGHT,
            r.stops@ == stops@,
    {
        LinearGradient { angle: TO_TOP_RIGHT, stops }
    }

    /// A linear gradient transitioning from left to right.
    pub fn to_right(stops: Vec<ColorStop>) -> (r: LinearGradient)
        ensures
            r.angle == TO_RIGHT,
            r.stops@ == stops@,
    {
        LinearGradient { angle: TO_RIGHT, stops }
    }

    /// A linear gradient transitioning from top-left to bottom-right.
    pub fn to_bottom_right(stops: Vec<ColorStop>) -> (r: LinearGradient)
        ensures
            r.angle == TO_BOTTOM_RIGHT,
            r.stops@ == stops@,
    {
        LinearGradient { angle: TO_BOTTOM_RIGHT, stops }
    }

    /// A linear gradient transitioning from top to bottom.
    pub fn to_bottom(stops: Vec<ColorStop>) -> (r: LinearGradient)
        ensures
            r.angle == TO_BOTTOM,
            r.stops@ == stops@,
    {
        LinearGradient { angle: TO_BOTTOM, stops }
    }

    /// A linear gradient transitioning from top-right to bottom-left.
    pub fn to_bottom_left(stops: Vec<ColorStop>) -> (r: LinearGradient)
        ensures
            r.angle == TO_BOTTOM_LEFT,
            r.stops@ == stops@,
    {
        LinearGradient { angle: TO_BOTTOM_LEFT, stops }
    }

    /// A linear gradient transitioning from right to left.
    pub fn to_left(stops: Vec<ColorStop>) -> (r: LinearGradient)
        ensures
            r.angle == TO_LEFT,
            r.stops@ == stops@,
    {
        LinearGradient { angle: TO_LEFT, stops }
    }

    /// A linear gradient transitioning from bottom-right to top-left.
    pub fn to_top_left(stops: Vec<ColorStop>) -> (r: LinearGradient)
        ensures
            r.angle == TO_TOP_LEFT,
            r.stops@ == stops@,
    {
        LinearGradient { angle: TO_TOP_LEFT, stops }
    }

    /// A linear gradient with the given angle in whole degrees.
    pub fn degrees(degrees: i64, stops: Vec<ColorStop>) -> (r: LinearGradient)
        requires
            -1_000_000 <= degrees <= 1_000_000,
        ensures
            r.angle == degrees * 1000,
            r.stops@ == stops@,
    {
        LinearGradient { angle: degrees * 1000, stops }
    }

    /// Resolve this gradient's stops against its line. The physical line
    /// length depends on the angle and the element size through
    /// trigonometry, so the host computes it and hands it in.
    pub fn resolve_stops(
        &self,
        scale_factor: i64,
        line_length: i64,
        target_size: Vec2I,
    ) -> (r: Vec<ResolvedColorStop>)
        requires
            stops_in_range(self.stops@),
            0 <= scale_factor <= FRACTION_LIMIT,
            size_in_range(line_length),
        ensures
            r@.len() == self.stops@.len(),
            forall|i: int|
                0 <= i < self.stops@.len() ==> (#[trigger] r@[i]).point == normalized_seq(
                    stop_points(self.stops@, scale_factor, line_length),
                    line_length,
                )[i],
            forall|i: int|
                0 <= i < self.stops@.len() ==> (#[trigger] r@[i]).color == self.stops@[i].color
                    && r@[i].hint == self.stops@[i].hint,
            forall|i: int|
                0 <= i < self.stops@.len() - 1 ==> (#[trigger] r@[i]).point <= r@[i + 1].point,
    {
        resolve_color_stops(&self.stops, scale_factor, line_length, target_size)
    }
}

/// A radial gradient: a center, an end shape, and color stops.
#[derive(Clone, PartialEq, Debug)]
pub struct RadialGradient {
    /// The center of the radial gradient.
    pub position: Position,
    /// The end shape of the radial gradient.
    pub shape: RadialGradientShape,
    /// The list of color stops.
    pub stops: Vec<ColorStop>,
}

impl RadialGradient {
    /// Create a new radial gradient.
    pub fn new(position: Position, shape: RadialGradientShape, stops: Vec<ColorStop>) -> (r:
        RadialGradient)
        ensures
            r.position == position,
            r.shape == shape,
            r.stops@ == stops@,
    {
        RadialGradient { position, shape, stops }
    }

    /// Resolve the gradient's physical geometry: its center relative to the
    /// element's center, and the half-extents of its end shape.
    pub fn resolve_geometry(
        &self,
        scale_factor: i64,
        physical_size: Vec2I,
        physical_target_size: Vec2I,
    ) -> (r: (Vec2I, Vec2I))
        requires
            position_in_range(self.position),
            shape_in_range(self.shape),
            0 <= scale_factor <= FRACTION_LIMIT,
            size_in_range(physical_size.x),
            size_in_range(physical_size.y),
        ensures
            r.0.x as int == resolve_axis_spec(
                self.position.anchor.x,
                self.position.x,
                scale_factor,
                physical_size.x,
            ),
            r.0.y as int == resolve_axis_spec(
                self.position.anchor.y,
                self.position.y,
                scale_factor,
                physical_size.y,
            ),
            r.1.x as int == shape_radii_spec(self.shape, r.0, scale_factor, physical_size).0,
            r.1.y as int == shape_radii_spec(self.shape, r.0, scale_factor, physical_size).1,
    {
        let center = self.position.resolve(scale_factor, physical_size, physical_target_size);
        let radii = self.shape.resolve(
            center,
            scale_factor,
            physical_size,
            physical_target_size,
        );
        (center, radii)
    }
}

/// A conic gradient: a center and angular color stops.
#[derive(Clone, PartialEq, Debug)]
pub struct ConicGradient {
    /// The center of the conic gradient.
    pub position: Position,
    /// The list of angular color stops.
    pub stops: Vec<AngularColorStop>,
}

impl ConicGradient {
    /// Create a new conic gradient.
    pub fn new(position: Position, stops: Vec<AngularColorStop>) -> (r: ConicGradient)
        ensures
            r.position == position,
            r.stops@ == stops@,
    {
        ConicGradient { position, stops }
    }

    /// Resolve this gradient's angular stops over a full turn.
    pub fn resolve_stops(&self) -> (r: Vec<ResolvedColorStop>)
        requires
            angular_stops_in_range(self.stops@),
        ensures
            r@.len() == self.stops@.len(),
            forall|i: int|
                0 <= i < self.stops@.len() ==> (#[trigger] r@[i]).point == normalized_seq(
                    stop_angles(self.stops@),
                    crate::fixed::FULL_TURN,
                )[i],
            forall|i: int|
                0 <= i < self.stops@.len() ==> (#[trigger] r@[i]).color == self.stops@[i].color
                    && r@[i].hint == self.stops@[i].hint,
            forall|i: int|
                0 <= i < self.stops@.len() - 1 ==> (#[trigger] r@[i]).point <= r@[i + 1].point,
    {
        resolve_angular_stops(&self.stops)
    }
}

impl Default for RadialGradient {
    /// A centered radial gradient reaching the closest corner, with no
    /// stops.
    fn default() -> (r: RadialGradient)
        ensures
            r.position == (Position {
                anchor: Vec2I { x: 0i64, y: 0i64 },
                x: crate::length::ResponsiveLength::Px(0),
                y: crate::length::ResponsiveLength::Px(0),
            }),
            r.shape == RadialGradientShape::ClosestCorner,
            r.stops@.len() == 0,
    {
        RadialGradient {
            position: Position::anchor(Vec2I { x: 0, y: 0 }),
            shape: RadialGradientShape::ClosestCorner,
            stops: Vec::new(),
        }
    }
}

/// A gradient: one of the three variants, each owning its stop list and
/// geometry parameters.
#[derive(Clone, PartialEq, Debug)]
pub enum Gradient {
    /// A linear gradient.
    Linear(LinearGradient),
    /// A radial gradient.
    Radial(RadialGradient),
    /// A conic gradient.
    Conic(ConicGradient),
}

/// The number of stops in the active variant's stop list.
pub open spec fn gradient_stop_count(g: Gradient) -> nat {
    match g {
        Gradient::Linear(gradient) => gradient.stops@.len(),
        Gradient::Radial(gradient) => gradient.stops@.len(),
        Gradient::Conic(gradient) => gradient.stops@.len(),
    }
}

/// The color of the active variant's first stop.
pub open spec fn gradient_first_color(g: Gradient) -> Color {
    match g {
        Gradient::Linear(gradient) => gradient.stops@[0].color,
        Gradient::Radial(gradient) => gradient.stops@[0].color,
        Gradient::Conic(gradient) => gradient.stops@[0].color,
    }
}

impl Gradient {
    /// Whether the gradient has no stops: true exactly when the active
    /// variant's stop list is empty.
    pub fn is_empty(&self) -> (r: bool)
        ensures
            r == (gradient_stop_count(*self) == 0),
    {
        match self {
            Gradient::Linear(gradient) => gradient.stops.len() == 0,
            Gradient::Radial(gradient) => gradient.stops.len() == 0,
            Gradient::Conic(gradient) => gradient.stops.len() == 0,
        }
    }

    /// The sole color of a single-stop gradient: `Some` exactly when the
    /// active variant's stop list has one stop.
    pub fn get_single(&self) -> (r: Option<Color>)
        ensures
            (r is Some) == (gradient_stop_count(*self) == 1),
            gradient_stop_count(*self) == 1 ==> r == Some(gradient_first_color(*self)),
    {
        match self {
            Gradient::Linear(gradient) => {
                if gradient.stops.len() == 1 {
                    Some(gradient.stops[0].color)
                } else {
                    None
                }
            },
            Gradient::Radial(gradient) => {
                if gradient.stops.len() == 1 {
                    Some(gradient.stops[0].color)
                } else {
                    None
                }
            },
            Gradient::Conic(gradient) => {
                if gradient.stops.len() == 1 {
                    Some(gradient.stops[0].color)
                } else {
                    None
                }
            },
        }
    }
}

impl From<LinearGradient> for Gradient {
    /// Wrap a linear gradient.
    fn from(value: LinearGradient) -> (r: Gradient)
    {
        Gradient::Linear(value)
    }
}

impl vstd::std_specs::convert::FromSpecImpl<LinearGradient> for Gradient {
    open spec fn obeys_from_spec() -> bool {
        true
    }

    open spec fn from_spec(value: LinearGradient) -> Gradient {
        Gradient::Linear(value)
    }
}

impl From<RadialGradient> for Gradient {
    /// Wrap a radial gradient.
    fn from(value: RadialGradient) -> (r: Gradient)
    {
        Gradient::Radial(value)
    }
}

impl vstd::std_specs::convert::FromSpecImpl<RadialGradient> for Gradient {
    open spec fn obeys_from_spec() -> bool {
        true
    }

    open spec fn from_spec(value: RadialGradient) -> Gradient {
        Gradient::Radial(value)
    }
}

impl From<ConicGradient> for Gradient {
    /// Wrap a conic gradient.
    fn from(value: ConicGradient) -> (r: Gradient)
    {
        Gradient::Conic(value)
    }
}

impl vstd::std_specs::convert::FromSpecImpl<ConicGradient> for Gradient {
    open spec fn obeys_from_spec() -> bool {
        true
    }

    open spec fn from_spec(value: ConicGradient) -> Gradient {
        Gradient::Conic(value)
    }
}

/// A UI node background drawn as a stack of gradients: the first entry
/// paints topmost, and an empty list means no gradient.
#[derive(Clone, PartialEq, Debug)]
pub struct BackgroundGradient(pub Vec<Gradient>);

impl BackgroundGradient {
    /// A background stack holding a single gradient.
    pub fn single(gradient: Gradient) -> (r: BackgroundGradient)
        ensures
            r.0@.len() == 1,
            r.0@[0] == gradient,
    {
        BackgroundGradient(vec![gradient])
    }
}

/// A UI node border band drawn as a stack of gradients: the first entry
/// paints topmost, and an empty list means no gradient.
#[derive(Clone, PartialEq, Debug)]
pub struct BorderGradient(pub Vec<Gradient>);

impl BorderGradient {
    /// A border stack holding a single gradient.
    pub fn single(gradient: Gradient) -> (r: BorderGradient)
        ensures
            r.0@.len() == 1,
            r.0@[0] == gradient,
    {
        BorderGradient(vec![gradient])
    }
}

/// Marker registering gradient rendering with a host application; the
/// host-side wiring lives outside this core.
pub struct UiGradientsPlugin;

} // verus!
