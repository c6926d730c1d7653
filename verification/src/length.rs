//! Responsive lengths: tagged values that resolve to an absolute physical
//! distance given a device scale factor and a reference size, or stay
//! unresolved.

use vstd::prelude::*;
use crate::fixed::{
    coord_in_range, floor_div, fraction_in_range, size_in_range, Vec2I, COORD_LIMIT, FRACTION_LIMIT,
    FRACTION_ONE, RESOLVED_LIMIT,
};

verus! {

/// A length that may need a reference size or a scale factor before it means
/// a concrete physical distance.
///
/// Distances are sub-pixel integers; fractional values (percentages,
/// viewport units) are thousandths, so `Percent(500)` is half the reference
/// size. Viewport-relative units carry their value but are not meaningful
/// for gradient geometry: they resolve to `None` like `Auto` does.
#[derive(Clone, Copy, PartialEq, Eq, Structural, Debug)]
pub enum ResponsiveLength {
    /// An absolute length in logical pixels; multiplied by the device scale
    /// factor when resolved.
    Px(i64),
    /// A fraction of the reference size, in thousandths.
    Percent(i64),
    /// No length: left to the caller (gradient stops interpolate it).
    Auto,
    /// A fraction of the viewport width, in thousandths; unresolved here.
    Vw(i64),
    /// A fraction of the viewport height, in thousandths; unresolved here.
    Vh(i64),
    /// A fraction of the smaller viewport extent, in thousandths; unresolved
    /// here.
    VMin(i64),
    /// A fraction of the larger viewport extent, in thousandths; unresolved
    /// here.
    VMax(i64),
}

/// The stored value is within the range the resolvers accept.
pub open spec fn length_in_range(value: ResponsiveLength) -> bool {
    match value {
        ResponsiveLength::Px(v) => coord_in_range(v),
        ResponsiveLength::Percent(p) => fraction_in_range(p),
        _ => true,
    }
}

/// What a responsive length resolves to: pixels are scaled by the device
/// scale factor, percentages take their fraction of the reference size, and
/// everything else stays unresolved.
pub open spec fn resolve_length_spec(
    value: ResponsiveLength,
    scale_factor: i64,
    reference_size: i64,
) -> Option<int> {
    match value {
        ResponsiveLength::Px(v) => Some((v * scale_factor) / (FRACTION_ONE as int)),
        ResponsiveLength::Percent(p) => Some((p * reference_size) / (FRACTION_ONE as int)),
        _ => None,
    }
}

/// A resolved length where the caller needs a concrete number: unresolved
/// lengths degrade to `0`.
pub open spec fn resolved_or_zero(
    value: ResponsiveLength,
    scale_factor: i64,
    reference_size: i64,
) -> int {
    match resolve_length_spec(value, scale_factor, reference_size) {
        Some(v) => v,
        None => 0,
    }
}

/// The fraction `f` (in thousandths) of the distance `v`: `v * f / 1000`,
/// rounded toward negative infinity.
pub fn scale_by_fraction(v: i64, f: i64) -> (r: i64)
    requires
        coord_in_range(v),
        fraction_in_range(f),
    ensures
        r as int == (v * f) / (FRACTION_ONE as int),
        -RESOLVED_LIMIT <= r <= RESOLVED_LIMIT,
{
    proof {
        assert(-1_000_000_000_000_000_000 <= v * f <= 1_000_000_000_000_000_000)
            by (nonlinear_arith)
            requires
                -1_000_000_000_000 <= v <= 1_000_000_000_000,
                -1_000_000 <= f <= 1_000_000,
        ;
    }
    let scaled = v * f;
    let q = floor_div(scaled, FRACTION_ONE);
    proof {
        vstd::arithmetic::div_mod::lemma_div_is_ordered(
            scaled as int,
            1_000_000_000_000_000_000,
            FRACTION_ONE as int,
        );
        vstd::arithmetic::div_mod::lemma_div_is_ordered(
            -1_000_000_000_000_000_000,
            scaled as int,
            FRACTION_ONE as int,
        );
    }
    q
}

impl ResponsiveLength {
    /// Resolve to an absolute physical distance, or `None` where the value
    /// does not determine one. Total: never fails on an accepted input.
    ///
    /// `target_size` is the physical viewport size; it is accepted because
    /// callers hold it alongside viewport-relative units, which this core
    /// leaves unresolved.
    pub fn resolve(
        &self,
        scale_factor: i64,
        reference_size: i64,
        target_size: Vec2I,
    ) -> (r: Option<i64>)
        requires
            length_in_range(*self),
            0 <= scale_factor <= FRACTION_LIMIT,
            size_in_range(reference_size),
        ensures
            (r is Some) == (resolve_length_spec(*self, scale_factor, reference_size) is Some),
            r is Some ==> r->0 as int == resolve_length_spec(*self, scale_factor, reference_size)->0,
            r is Some ==> -RESOLVED_LIMIT <= r->0 <= RESOLVED_LIMIT,
    {
        match self {
            ResponsiveLength::Px(v) => Some(scale_by_fraction(*v, scale_factor)),
            ResponsiveLength::Percent(p) => {
                let pv = *p;
                proof {
                    assert(pv * reference_size == reference_size * pv) by (nonlinear_arith);
                }
                Some(scale_by_fraction(reference_size, pv))
            },
            _ => None,
        }
    }

    /// Resolve, substituting `0` where no concrete distance comes out.
    pub fn resolve_or_zero(
        &self,
        scale_factor: i64,
        reference_size: i64,
        target_size: Vec2I,
    ) -> (r: i64)
        requires
            length_in_range(*self),
            0 <= scale_factor <= FRACTION_LIMIT,
            size_in_range(reference_size),
        ensures
            r as int == resolved_or_zero(*self, scale_factor, reference_size),
            -RESOLVED_LIMIT <= r <= RESOLVED_LIMIT,
    {
        match self.resolve(scale_factor, reference_size, target_size) {
            Some(v) => v,
            None => 0,
        }
    }
}

} // verus!
