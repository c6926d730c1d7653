use ui_gradients::fixed::{Vec2I, FULL_TURN};
use ui_gradients::length::ResponsiveLength;
use ui_gradients::stops::{
    interpolation_weight, resolve_angular_stops, resolve_color_stops, AngularColorStop, Color,
    ColorStop,
};

fn red() -> Color {
    Color::rgb(255, 0, 0)
}

fn yellow() -> Color {
    Color::rgb(255, 255, 0)
}

fn blue() -> Color {
    Color::rgb(0, 0, 255)
}

fn target() -> Vec2I {
    Vec2I { x: 1920, y: 1080 }
}

#[test]
fn red_to_auto_yellow_spans_the_whole_line() {
    let stops = vec![
        ColorStop::new(red(), ResponsiveLength::Px(0)),
        ColorStop::auto(yellow()),
    ];
    let r = resolve_color_stops(&stops, 1000, 800, target());
    assert_eq!(r.len(), 2);
    assert_eq!(r[0].point, 0);
    assert_eq!(r[0].color, red());
    assert_eq!(r[1].point, 800);
    assert_eq!(r[1].color, yellow());
}

#[test]
fn conic_autos_split_the_full_turn_evenly() {
    let stops = vec![
        AngularColorStop::new(red(), 0),
        AngularColorStop::auto(red()),
        AngularColorStop::auto(blue()),
    ];
    let r = resolve_angular_stops(&stops);
    assert_eq!(r.len(), 3);
    assert_eq!(r[0].point, 0);
    assert_eq!(r[1].point, FULL_TURN / 2);
    assert_eq!(r[2].point, FULL_TURN);
    assert_eq!(r[0].color, red());
    assert_eq!(r[1].color, red());
    assert_eq!(r[2].color, blue());
}

#[test]
fn percent_stop_points_resolve_against_the_line_length() {
    let stops = vec![
        ColorStop::new(red(), ResponsiveLength::Percent(250)),
        ColorStop::new(blue(), ResponsiveLength::Percent(750)),
    ];
    let r = resolve_color_stops(&stops, 1000, 400, target());
    assert_eq!(r[0].point, 100);
    assert_eq!(r[1].point, 300);
}

#[test]
fn unresolvable_stop_points_act_as_automatic() {
    let stops = vec![
        ColorStop::new(red(), ResponsiveLength::Px(0)),
        ColorStop::new(yellow(), ResponsiveLength::Vw(500)),
        ColorStop::new(blue(), ResponsiveLength::Px(100)),
    ];
    let r = resolve_color_stops(&stops, 1000, 800, target());
    assert_eq!(r[0].point, 0);
    assert_eq!(r[1].point, 50);
    assert_eq!(r[2].point, 100);
}

#[test]
fn hints_and_colors_carry_over_unchanged() {
    let stops = vec![
        ColorStop::new(red(), ResponsiveLength::Px(0)).with_hint(250),
        ColorStop::auto(blue()).with_hint(900),
    ];
    let r = resolve_color_stops(&stops, 1000, 100, target());
    assert_eq!(r[0].hint, 250);
    assert_eq!(r[1].hint, 900);
    assert_eq!(r[0].color, red());
    assert_eq!(r[1].color, blue());
    let angular = vec![AngularColorStop::new(red(), 0).with_hint(123)];
    let ra = resolve_angular_stops(&angular);
    assert_eq!(ra[0].hint, 123);
}

#[test]
fn disordered_stop_lists_come_out_monotone() {
    let stops = vec![
        ColorStop::new(red(), ResponsiveLength::Px(500)),
        ColorStop::new(yellow(), ResponsiveLength::Px(200)),
        ColorStop::new(blue(), ResponsiveLength::Px(300)),
    ];
    let r = resolve_color_stops(&stops, 1000, 800, target());
    assert_eq!(r[0].point, 500);
    assert_eq!(r[1].point, 500);
    assert_eq!(r[2].point, 500);
}

#[test]
fn stop_constructors_fill_the_expected_fields() {
    let s = ColorStop::new(red(), ResponsiveLength::Px(10));
    assert_eq!(s.color, red());
    assert_eq!(s.point, ResponsiveLength::Px(10));
    assert_eq!(s.hint, 500);
    let a = ColorStop::auto(blue());
    assert_eq!(a.point, ResponsiveLength::Auto);
    let n = AngularColorStop::new(red(), 90_000);
    assert_eq!(n.angle, Some(90_000));
    assert_eq!(n.hint, 500);
    let m = AngularColorStop::auto(blue());
    assert_eq!(m.angle, None);
    let c = Color::rgba(1, 2, 3, 4);
    assert_eq!((c.red, c.green, c.blue, c.alpha), (1, 2, 3, 4));
    assert_eq!(red().alpha, 255);
}

#[test]
fn a_centered_hint_is_a_plain_linear_blend() {
    assert_eq!(interpolation_weight(0, 500), 0);
    assert_eq!(interpolation_weight(250, 500), 250);
    assert_eq!(interpolation_weight(500, 500), 500);
    assert_eq!(interpolation_weight(750, 500), 750);
    assert_eq!(interpolation_weight(1000, 500), 1000);
}

#[test]
fn the_hint_moves_the_blend_midpoint() {
    assert_eq!(interpolation_weight(250, 250), 500);
    assert_eq!(interpolation_weight(125, 250), 250);
    assert_eq!(interpolation_weight(625, 250), 750);
    assert_eq!(interpolation_weight(0, 250), 0);
    assert_eq!(interpolation_weight(1000, 250), 1000);
}

#[test]
fn out_of_range_hints_are_clamped_to_the_segment() {
    assert_eq!(interpolation_weight(500, 1200), 250);
    assert_eq!(interpolation_weight(500, -5), 750);
    assert_eq!(interpolation_weight(0, -5), 0);
    assert_eq!(interpolation_weight(1000, 1200), 1000);
}
