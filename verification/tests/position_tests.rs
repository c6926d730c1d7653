use ui_gradients::fixed::Vec2I;
use ui_gradients::length::ResponsiveLength;
use ui_gradients::position::Position;

fn size() -> Vec2I {
    Vec2I { x: 200, y: 100 }
}

fn target() -> Vec2I {
    Vec2I { x: 1920, y: 1080 }
}

#[test]
fn zero_offsets_give_exactly_the_anchor_contribution() {
    for (ax, ay, ex, ey) in [
        (-500i64, -500i64, -100i64, -50i64),
        (-500, 0, -100, 0),
        (0, 0, 0, 0),
        (0, 500, 0, 50),
        (500, 500, 100, 50),
        (500, -500, 100, -50),
    ] {
        let p = Position::anchor(Vec2I { x: ax, y: ay });
        let r = p.resolve(1000, size(), target());
        assert_eq!(r, Vec2I { x: ex, y: ey });
    }
}

#[test]
fn positive_offset_pulls_inward_from_a_positive_anchor() {
    let anchor_only = Position::anchor(Vec2I { x: 500, y: 500 }).resolve(1000, size(), target());
    let offset = Position::anchor(Vec2I { x: 500, y: 500 })
        .at_px(10, 10)
        .resolve(1000, size(), target());
    assert!(offset.x < anchor_only.x);
    assert!(offset.y < anchor_only.y);
    assert_eq!(offset, Vec2I { x: 90, y: 40 });
}

#[test]
fn positive_offset_pushes_inward_from_a_negative_anchor() {
    let anchor_only = Position::anchor(Vec2I { x: -500, y: -500 }).resolve(1000, size(), target());
    let offset = Position::anchor(Vec2I { x: -500, y: -500 })
        .at_px(10, 10)
        .resolve(1000, size(), target());
    assert!(offset.x > anchor_only.x);
    assert!(offset.y > anchor_only.y);
    assert_eq!(offset, Vec2I { x: -90, y: -40 });
}

#[test]
fn percent_offsets_use_each_axis_size_as_reference() {
    let p = Position::anchor(Vec2I { x: 0, y: 0 }).at_percent(100, 100);
    let r = p.resolve(1000, size(), target());
    assert_eq!(r, Vec2I { x: 20, y: 10 });
}

#[test]
fn offsets_scale_with_the_device_factor() {
    let p = Position::anchor(Vec2I { x: 0, y: 0 }).at_px(10, 20);
    let r = p.resolve(2000, size(), target());
    assert_eq!(r, Vec2I { x: 20, y: 40 });
}

#[test]
fn auto_offsets_degrade_to_zero() {
    let p = Position::new(
        Vec2I { x: 500, y: -500 },
        ResponsiveLength::Auto,
        ResponsiveLength::Vw(300),
    );
    let r = p.resolve(1000, size(), target());
    assert_eq!(r, Vec2I { x: 100, y: -50 });
}

#[test]
fn corner_and_edge_presets_set_the_expected_anchors() {
    let x = ResponsiveLength::Px(1);
    let y = ResponsiveLength::Px(2);
    assert_eq!(Position::top_left(x, y).anchor, Vec2I { x: -500, y: -500 });
    assert_eq!(Position::left(x, y).anchor, Vec2I { x: -500, y: 0 });
    assert_eq!(Position::bottom_left(x, y).anchor, Vec2I { x: -500, y: 500 });
    assert_eq!(Position::top(x, y).anchor, Vec2I { x: 0, y: -500 });
    assert_eq!(Position::center(x, y).anchor, Vec2I { x: 0, y: 0 });
    assert_eq!(Position::bottom(x, y).anchor, Vec2I { x: 0, y: 500 });
    assert_eq!(Position::top_right(x, y).anchor, Vec2I { x: 500, y: -500 });
    assert_eq!(Position::right(x, y).anchor, Vec2I { x: 500, y: 0 });
    assert_eq!(Position::bottom_right(x, y).anchor, Vec2I { x: 500, y: 500 });
    assert_eq!(Position::top_right(x, y).x, x);
    assert_eq!(Position::top_right(x, y).y, y);
}

#[test]
fn builders_replace_only_what_they_name() {
    let base = Position::anchor(Vec2I { x: 100, y: -200 });
    let moved = base.at_x(ResponsiveLength::Px(5));
    assert_eq!(moved.anchor, base.anchor);
    assert_eq!(moved.x, ResponsiveLength::Px(5));
    assert_eq!(moved.y, ResponsiveLength::Px(0));
    let re_anchored = moved.with_anchor(Vec2I { x: 0, y: 0 });
    assert_eq!(re_anchored.x, ResponsiveLength::Px(5));
    assert_eq!(re_anchored.anchor, Vec2I { x: 0, y: 0 });
    let at_both = base.at(ResponsiveLength::Percent(10), ResponsiveLength::Auto);
    assert_eq!(at_both.x, ResponsiveLength::Percent(10));
    assert_eq!(at_both.y, ResponsiveLength::Auto);
    let at_y = base.at_y(ResponsiveLength::Px(9));
    assert_eq!(at_y.y, ResponsiveLength::Px(9));
}
