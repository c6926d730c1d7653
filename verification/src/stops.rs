//! Color stops and their resolution into fully explicit, monotone stop
//! sequences, plus the midpoint-hint easing of the blend between two stops.

use vstd::prelude::*;
use crate::fixed::{
    floor_div, resolved_in_range, size_in_range, Vec2I, FRACTION_LIMIT, FRACTION_ONE, MAX_STOPS,
};
use crate::length::{length_in_range, resolve_length_spec, ResponsiveLength};
use crate::normalize::{
    normalize_stop_positions, normalized_seq, points_in_range,
};

verus! {

/// An sRGBA color, eight bits per channel. The resolvers carry colors
/// through unchanged; no color math happens here.
#[derive(Clone, Copy, PartialEq, Eq, Structural, Debug)]
pub struct Color {
    pub red: u8,
    pub green: u8,
    pub blue: u8,
    pub alpha: u8,
}

impl Color {
    /// Build a color from its four channels.
    pub fn rgba(red: u8, green: u8, blue: u8, alpha: u8) -> (r: Color)
        ensures
            r == (Color { red, green, blue, alpha }),
    {
        Color { red, green, blue, alpha }
    }

    /// Build an opaque color from its three channels.
    pub fn rgb(red: u8, green: u8, blue: u8) -> (r: Color)
        ensures
            r == (Color { red, green, blue, alpha: 255u8 }),
    {
        Color { red, green, blue, alpha: 255 }
    }
}

/// A color stop for a linear or radial gradient. `point` is relative to the
/// start of the gradient line, not to other stops. `hint`, in thousandths,
/// is the normalized position between this stop and the next at which the
/// blend reaches its midpoint; `500` is a plain linear blend.
#[derive(Clone, Copy, PartialEq, Eq, Structural, Debug)]
pub struct ColorStop {
    /// Color of the stop.
    pub color: Color,
    /// Logical position along the gradient line.
    pub point: ResponsiveLength,
    /// Normalized midpoint of the blend toward the following stop.
    pub hint: i64,
}

impl ColorStop {
    /// A stop at an explicit position, with a centered blend midpoint.
    pub fn new(color: Color, point: ResponsiveLength) -> (r: ColorStop)
        ensures
            r == (ColorStop { color, point, hint: 500i64 }),
    {
        ColorStop { color, point, hint: 500 }
    }

    /// An automatic stop: its position is interpolated evenly between the
    /// neighbouring explicit stops.
    pub fn auto(color: Color) -> (r: ColorStop)
        ensures
            r == (ColorStop { color, point: ResponsiveLength::Auto, hint: 500i64 }),
    {
        ColorStop { color, point: ResponsiveLength::Auto, hint: 500 }
    }

    /// This stop with the given blend midpoint.
    pub fn with_hint(self, hint: i64) -> (r: ColorStop)
        ensures
            r == (ColorStop { hint, ..self }),
    {
        ColorStop { hint, ..self }
    }
}

impl Default for ColorStop {
    /// An automatic white stop with a centered blend midpoint.
    fn default() -> (r: ColorStop)
        ensures
            r == (ColorStop {
                color: Color { red: 255u8, green: 255u8, blue: 255u8, alpha: 255u8 },
                point: ResponsiveLength::Auto,
                hint: 500i64,
            }),
    {
        ColorStop {
            color: Color { red: 255, green: 255, blue: 255, alpha: 255 },
            point: ResponsiveLength::Auto,
            hint: 500,
        }
    }
}

impl From<(Color, ResponsiveLength)> for ColorStop {
    /// A stop at the given position, with a centered blend midpoint.
    fn from(pair: (Color, ResponsiveLength)) -> (r: ColorStop)
    {
        ColorStop { color: pair.0, point: pair.1, hint: 500 }
    }
}

impl vstd::std_specs::convert::FromSpecImpl<(Color, ResponsiveLength)> for ColorStop {
    open spec fn obeys_from_spec() -> bool {
        true
    }

    open spec fn from_spec(pair: (Color, ResponsiveLength)) -> ColorStop {
        ColorStop { color: pair.0, point: pair.1, hint: 500i64 }
    }
}

impl From<Color> for ColorStop {
    /// An automatic stop of the given color.
    fn from(color: Color) -> (r: ColorStop)
    {
        ColorStop { color, point: ResponsiveLength::Auto, hint: 500 }
    }
}

impl vstd::std_specs::convert::FromSpecImpl<Color> for ColorStop {
    open spec fn obeys_from_spec() -> bool {
        true
    }

    open spec fn from_spec(color: Color) -> ColorStop {
        ColorStop { color, point: ResponsiveLength::Auto, hint: 500i64 }
    }
}

/// An angular color stop for a conic gradient. `angle` is in thousandths of
/// a degree from the start of the gradient; `None` marks an automatic stop.
#[derive(Clone, Copy, PartialEq, Eq, Structural, Debug)]
pub struct AngularColorStop {
    /// Color of the stop.
    pub color: Color,
    /// The angle of the stop, or `None` for an automatic stop.
    pub angle: Option<i64>,
    /// Normalized midpoint of the blend toward the following stop.
    pub hint: i64,
}

impl AngularColorStop {
    /// A stop at an explicit angle, with a centered blend midpoint.
    pub fn new(color: Color, angle: i64) -> (r: AngularColorStop)
        ensures
            r == (AngularColorStop { color, angle: Some(angle), hint: 500i64 }),
    {
        AngularColorStop { color, angle: Some(angle), hint: 500 }
    }

    /// An automatic stop: its angle is interpolated evenly between the
    /// neighbouring explicit stops.
    pub fn auto(color: Color) -> (r: AngularColorStop)
        ensures
            r == (AngularColorStop { color, angle: None, hint: 500i64 }),
    {
        AngularColorStop { color, angle: None, hint: 500 }
    }

    /// This stop with the given blend midpoint.
    pub fn with_hint(self, hint: i64) -> (r: AngularColorStop)
        ensures
            r == (AngularColorStop { hint, ..self }),
    {
        AngularColorStop { hint, ..self }
    }
}

/// A fully resolved stop: an explicit position (a distance along the
/// gradient line, or an angle in thousandths of a degree), its color, and
/// the blend midpoint toward the next stop.
#[derive(Clone, Copy, PartialEq, Eq, Structural, Debug)]
pub struct ResolvedColorStop {
    /// Explicit position or angle of the stop.
    pub point: i64,
    /// Color of the stop.
    pub color: Color,
    /// Normalized midpoint of the blend toward the following stop.
    pub hint: i64,
}

/// The hint clamped into `[0, FRACTION_ONE]`. Out-of-range hints are treated
/// as sitting on the nearer end of the segment.
pub open spec fn clamped_hint(hint: i64) -> int {
    if hint < 0 {
        0
    } else if hint > FRACTION_ONE {
        FRACTION_ONE as int
    } else {
        hint as int
    }
}

/// The blend weight at normalized parameter `t` between two stops with
/// midpoint `hint`: a piecewise-linear remap that sends `hint` to one half,
/// linear below the hint and linear above it.
pub open spec fn interpolation_weight_spec(t: i64, hint: i64) -> int {
    let h = clamped_hint(hint);
    if t <= 0 {
        0
    } else if t >= FRACTION_ONE {
        FRACTION_ONE as int
    } else if (t as int) < h {
        (t * 500) / h
    } else {
        500 + ((t - h) * 500) / (1000 - h)
    }
}

/// The blend weight between a stop and the next at normalized parameter `t`
/// (thousandths), easing the color midpoint to the stop's `hint`: the weight
/// is `0` at `t = 0`, one half at `t = hint`, and `1` at `t = 1`, linear on
/// each side of the hint. Hints are clamped into `[0, FRACTION_ONE]`.
pub fn interpolation_weight(t: i64, hint: i64) -> (r: i64)
    requires
        0 <= t <= FRACTION_ONE,
    ensures
        r as int == interpolation_weight_spec(t, hint),
        0 <= r <= FRACTION_ONE,
        0 < t < FRACTION_ONE && t as int == clamped_hint(hint) ==> r == 500i64,
        t == 0 ==> r == 0i64,
        t == FRACTION_ONE ==> r == FRACTION_ONE,
{
    let h: i64 = if hint < 0 {
        0
    } else if hint > FRACTION_ONE {
        FRACTION_ONE
    } else {
        hint
    };
    if t <= 0 {
        0
    } else if t >= FRACTION_ONE {
        FRACTION_ONE
    } else if t < h {
        let q = floor_div(t * 500, h);
        proof {
            vstd::arithmetic::div_mod::lemma_div_pos_is_pos(t as int * 500, h as int);
            vstd::arithmetic::div_mod::lemma_div_is_ordered(t as int * 500, h as int * 500, h as int);
            vstd::arithmetic::div_mod::lemma_div_multiples_vanish(500, h as int);
            assert((t as int) * 500 <= (h as int) * 500) by (nonlinear_arith)
                requires
                    t < h,
            ;
        }
        q
    } else {
        let q = floor_div((t - h) * 500, 1000 - h);
        proof {
            let m = 1000 - h as int;
            vstd::arithmetic::div_mod::lemma_div_pos_is_pos((t - h) as int * 500, m);
            vstd::arithmetic::div_mod::lemma_div_is_ordered((t - h) as int * 500, m * 500, m);
            vstd::arithmetic::div_mod::lemma_div_multiples_vanish(500, m);
            assert(((t - h) as int) * 500 <= m * 500) by (nonlinear_arith)
                requires
                    ((t - h) as int) < m,
            ;
            if t == h {
                assert(0 * 500 == 0) by (nonlinear_arith);
                vstd::arithmetic::div_mod::lemma_div_multiples_vanish(0, m);
            }
        }
        500 + q
    }
}

/// The stop positions a list of color stops resolves to: explicit points
/// become concrete distances, automatic and unresolvable points stay open
/// for the normalizer.
pub open spec fn stop_points(stops: Seq<ColorStop>, scale_factor: i64, line_length: i64) -> Seq<
    Option<i64>,
> {
    Seq::new(
        stops.len(),
        |i: int|
            match resolve_length_spec(stops[i].point, scale_factor, line_length) {
                Some(v) => Some(v as i64),
                None => None,
            },
    )
}

/// The angles a list of angular color stops carries, explicit ones as they
/// are, automatic ones left open for the normalizer.
pub open spec fn stop_angles(stops: Seq<AngularColorStop>) -> Seq<Option<i64>> {
    Seq::new(stops.len(), |i: int| stops[i].angle)
}

/// Every stop in the list is within the ranges the resolvers accept.
pub open spec fn stops_in_range(stops: Seq<ColorStop>) -> bool {
    &&& stops.len() <= MAX_STOPS
    &&& forall|i: int| 0 <= i < stops.len() ==> length_in_range((#[trigger] stops[i]).point)
}

/// Every angular stop in the list is within the ranges the resolvers accept.
pub open spec fn angular_stops_in_range(stops: Seq<AngularColorStop>) -> bool {
    &&& stops.len() <= MAX_STOPS
    &&& forall|i: int|
        0 <= i < stops.len() && (#[trigger] stops[i]).angle is Some ==> resolved_in_range(
            stops[i].angle->0,
        )
}

/// Resolve a list of color stops against a gradient line of length
/// `line_length`: explicit points resolve through the responsive-length
/// rules, automatic points are filled in by normalization, and the output
/// positions never decrease. Colors and hints carry over unchanged.
pub fn resolve_color_stops(
    stops: &Vec<ColorStop>,
    scale_factor: i64,
    line_length: i64,
    target_size: Vec2I,
) -> (r: Vec<ResolvedColorStop>)
    requires
        stops_in_range(stops@),
        0 <= scale_factor <= FRACTION_LIMIT,
        size_in_range(line_length),
    ensures
        r@.len() == stops@.len(),
        forall|i: int|
            0 <= i < stops@.len() ==> (#[trigger] r@[i]).point == normalized_seq(
                stop_points(stops@, scale_factor, line_length),
                line_length,
            )[i],
        forall|i: int| 0 <= i < stops@.len() ==> (#[trigger] r@[i]).color == stops@[i].color,
        forall|i: int| 0 <= i < stops@.len() ==> (#[trigger] r@[i]).hint == stops@[i].hint,
        forall|i: int| 0 <= i < stops@.len() - 1 ==> (#[trigger] r@[i]).point <= r@[i + 1].point,
{
    let ghost spts = stop_points(stops@, scale_factor, line_length);
    let n = stops.len();
    let mut points: Vec<Option<i64>> = Vec::new();
    let mut i: usize = 0;
    while i < n
        invariant
            n == stops@.len(),
            stops_in_range(stops@),
            0 <= scale_factor <= FRACTION_LIMIT,
            size_in_range(line_length),
            spts == stop_points(stops@, scale_factor, line_length),
            i <= n,
            points@.len() == i,
            forall|k: int| 0 <= k < i ==> #[trigger] points@[k] == spts[k],
            points_in_range(points@),
        decreases n - i,
    {
        let p = stops[i].point.resolve(scale_factor, line_length, target_size);
        points.push(p);
        i = i + 1;
    }
    proof {
        assert(points@ =~= spts);
    }
    let normalized = normalize_stop_positions(&points, line_length);
    let mut out: Vec<ResolvedColorStop> = Vec::new();
    let mut j: usize = 0;
    while j < n
        invariant
            n == stops@.len(),
            normalized@ == normalized_seq(spts, line_length),
            normalized@.len() == n,
            j <= n,
            out@.len() == j,
            forall|k: int| 0 <= k < j ==> (#[trigger] out@[k]).point == normalized@[k],
            forall|k: int| 0 <= k < j ==> (#[trigger] out@[k]).color == stops@[k].color,
            forall|k: int| 0 <= k < j ==> (#[trigger] out@[k]).hint == stops@[k].hint,
        decreases n - j,
    {
        let stop = &stops[j];
        out.push(ResolvedColorStop { point: normalized[j], color: stop.color, hint: stop.hint });
        j = j + 1;
    }
    proof {
        assert forall|i2: int| 0 <= i2 < stops@.len() - 1 implies (#[trigger] out@[i2]).point
            <= out@[i2 + 1].point by {
            crate::normalize::lemma_normalized_monotone(spts, line_length, i2);
            crate::normalize::lemma_normalized_value_bounds(spts, line_length, i2);
            crate::normalize::lemma_normalized_value_bounds(spts, line_length, i2 + 1);
        }
    }
    out
}

/// Resolve a list of angular color stops over a full turn: explicit angles
/// stay, automatic angles are filled in by normalization over a total extent
/// of one full turn, and the output angles never decrease. Colors and hints
/// carry over unchanged.
pub fn resolve_angular_stops(stops: &Vec<AngularColorStop>) -> (r: Vec<ResolvedColorStop>)
    requires
        angular_stops_in_range(stops@),
    ensures
        r@.len() == stops@.len(),
        forall|i: int|
            0 <= i < stops@.len() ==> (#[trigger] r@[i]).point == normalized_seq(
                stop_angles(stops@),
                crate::fixed::FULL_TURN,
            )[i],
        forall|i: int| 0 <= i < stops@.len() ==> (#[trigger] r@[i]).color == stops@[i].color,
        forall|i: int| 0 <= i < stops@.len() ==> (#[trigger] r@[i]).hint == stops@[i].hint,
        forall|i: int| 0 <= i < stops@.len() - 1 ==> (#[trigger] r@[i]).point <= r@[i + 1].point,
{
    let ghost spts = stop_angles(stops@);
    let n = stops.len();
    let mut points: Vec<Option<i64>> = Vec::new();
    let mut i: usize = 0;
    while i < n
        invariant
            n == stops@.len(),
            angular_stops_in_range(stops@),
            spts == stop_angles(stops@),
            i <= n,
            points@.len() == i,
            forall|k: int| 0 <= k < i ==> #[trigger] points@[k] == spts[k],
            points_in_range(points@),
        decreases n - i,
    {
        points.push(stops[i].angle);
        i = i + 1;
    }
    proof {
        assert(points@ =~= spts);
    }
    let normalized = normalize_stop_positions(&points, crate::fixed::FULL_TURN);
    let mut out: Vec<ResolvedColorStop> = Vec::new();
    let mut j: usize = 0;
    while j < n
        invariant
            n == stops@.len(),
            normalized@ == normalized_seq(spts, crate::fixed::FULL_TURN),
            normalized@.len() == n,
            j <= n,
            out@.len() == j,
            forall|k: int| 0 <= k < j ==> (#[trigger] out@[k]).point == normalized@[k],
            forall|k: int| 0 <= k < j ==> (#[trigger] out@[k]).color == stops@[k].color,
            forall|k: int| 0 <= k < j ==> (#[trigger] out@[k]).hint == stops@[k].hint,
        decreases n - j,
    {
        let stop = &stops[j];
        out.push(ResolvedColorStop { point: normalized[j], color: stop.color, hint: stop.hint });
        j = j + 1;
    }
    proof {
        assert forall|i2: int| 0 <= i2 < stops@.len() - 1 implies (#[trigger] out@[i2]).point
            <= out@[i2 + 1].point by {
            crate::normalize::lemma_normalized_monotone(spts, crate::fixed::FULL_TURN, i2);
            crate::normalize::lemma_normalized_value_bounds(spts, crate::fixed::FULL_TURN, i2);
            crate::normalize::lemma_normalized_value_bounds(spts, crate::fixed::FULL_TURN, i2 + 1);
        }
    }
    out
}

} // verus!
