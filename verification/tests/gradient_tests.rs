use ui_gradients::fixed::Vec2I;
use ui_gradients::gradient::{
    BackgroundGradient, BorderGradient, ConicGradient, Gradient, LinearGradient, RadialGradient,
    TO_BOTTOM, TO_BOTTOM_LEFT, TO_BOTTOM_RIGHT, TO_LEFT, TO_RIGHT, TO_TOP, TO_TOP_LEFT,
    TO_TOP_RIGHT,
};
use ui_gradients::length::ResponsiveLength;
use ui_gradients::position::Position;
use ui_gradients::shape::RadialGradientShape;
use ui_gradients::stops::{AngularColorStop, Color, ColorStop};

fn red() -> Color {
    Color::rgb(255, 0, 0)
}

fn blue() -> Color {
    Color::rgb(0, 0, 255)
}

fn center() -> Position {
    Position::anchor(Vec2I { x: 0, y: 0 })
}

fn one_stop() -> Vec<ColorStop> {
    vec![ColorStop::auto(red())]
}

fn target() -> Vec2I {
    Vec2I { x: 1920, y: 1080 }
}

#[test]
fn is_empty_means_no_stops_in_the_active_variant() {
    let empty_linear = Gradient::Linear(LinearGradient::new(0, Vec::new()));
    let empty_radial = Gradient::Radial(RadialGradient::new(
        center(),
        RadialGradientShape::ClosestCorner,
        Vec::new(),
    ));
    let empty_conic = Gradient::Conic(ConicGradient::new(center(), Vec::new()));
    assert!(empty_linear.is_empty());
    assert!(empty_radial.is_empty());
    assert!(empty_conic.is_empty());
    let full_linear = Gradient::Linear(LinearGradient::new(0, one_stop()));
    let full_radial = Gradient::Radial(RadialGradient::new(
        center(),
        RadialGradientShape::ClosestCorner,
        one_stop(),
    ));
    let full_conic = Gradient::Conic(ConicGradient::new(
        center(),
        vec![AngularColorStop::auto(red())],
    ));
    assert!(!full_linear.is_empty());
    assert!(!full_radial.is_empty());
    assert!(!full_conic.is_empty());
}

#[test]
fn get_single_returns_the_sole_color_exactly_for_one_stop() {
    let none = Gradient::Linear(LinearGradient::new(0, Vec::new()));
    assert_eq!(none.get_single(), None);
    let one = Gradient::Linear(LinearGradient::new(0, one_stop()));
    assert_eq!(one.get_single(), Some(red()));
    let two = Gradient::Linear(LinearGradient::new(
        0,
        vec![ColorStop::auto(red()), ColorStop::auto(blue())],
    ));
    assert_eq!(two.get_single(), None);
    let one_conic = Gradient::Conic(ConicGradient::new(
        center(),
        vec![AngularColorStop::auto(blue())],
    ));
    assert_eq!(one_conic.get_single(), Some(blue()));
    let one_radial = Gradient::Radial(RadialGradient::new(
        center(),
        RadialGradientShape::ClosestSide,
        vec![ColorStop::auto(blue())],
    ));
    assert_eq!(one_radial.get_single(), Some(blue()));
}

#[test]
fn direction_presets_are_eighths_of_a_turn() {
    assert_eq!(LinearGradient::to_top(one_stop()).angle, TO_TOP);
    assert_eq!(LinearGradient::to_top_right(one_stop()).angle, TO_TOP_RIGHT);
    assert_eq!(LinearGradient::to_right(one_stop()).angle, TO_RIGHT);
    assert_eq!(LinearGradient::to_bottom_right(one_stop()).angle, TO_BOTTOM_RIGHT);
    assert_eq!(LinearGradient::to_bottom(one_stop()).angle, TO_BOTTOM);
    assert_eq!(LinearGradient::to_bottom_left(one_stop()).angle, TO_BOTTOM_LEFT);
    assert_eq!(LinearGradient::to_left(one_stop()).angle, TO_LEFT);
    assert_eq!(LinearGradient::to_top_left(one_stop()).angle, TO_TOP_LEFT);
    assert_eq!(TO_TOP, 0);
    assert_eq!(TO_TOP_RIGHT, 45_000);
    assert_eq!(TO_BOTTOM, 180_000);
}

#[test]
fn degrees_convert_to_thousandths() {
    let g = LinearGradient::degrees(45, one_stop());
    assert_eq!(g.angle, 45_000);
    let h = LinearGradient::degrees(-90, one_stop());
    assert_eq!(h.angle, -90_000);
}

#[test]
fn linear_resolve_stops_normalizes_over_the_line() {
    let g = LinearGradient::to_right(vec![
        ColorStop::new(red(), ResponsiveLength::Px(0)),
        ColorStop::auto(blue()),
    ]);
    let r = g.resolve_stops(1000, 640, target());
    assert_eq!(r[0].point, 0);
    assert_eq!(r[1].point, 640);
}

#[test]
fn radial_geometry_resolves_center_and_radii() {
    let g = RadialGradient::new(center(), RadialGradientShape::FarthestSide, one_stop());
    let (c, radii) = g.resolve_geometry(1000, Vec2I { x: 200, y: 100 }, target());
    assert_eq!(c, Vec2I { x: 0, y: 0 });
    assert_eq!(radii, Vec2I { x: 100, y: 100 });
}

#[test]
fn layer_lists_keep_their_order_verbatim() {
    let top = Gradient::Linear(LinearGradient::new(0, one_stop()));
    let under = Gradient::Conic(ConicGradient::new(center(), Vec::new()));
    let bg = BackgroundGradient(vec![top.clone(), under.clone()]);
    assert_eq!(bg.0.len(), 2);
    assert_eq!(bg.0[0], top);
    assert_eq!(bg.0[1], under);
    let single_bg = BackgroundGradient::single(top.clone());
    assert_eq!(single_bg.0, vec![top.clone()]);
    let single_border = BorderGradient::single(under.clone());
    assert_eq!(single_border.0, vec![under]);
    let empty = BackgroundGradient(Vec::new());
    assert!(empty.0.is_empty());
}
