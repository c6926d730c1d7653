use ui_gradients::fixed::Vec2I;
use ui_gradients::length::ResponsiveLength;
use ui_gradients::shape::RadialGradientShape;

fn size() -> Vec2I {
    Vec2I { x: 200, y: 100 }
}

fn target() -> Vec2I {
    Vec2I { x: 1920, y: 1080 }
}

fn resolve_at(shape: RadialGradientShape, p: Vec2I) -> Vec2I {
    shape.resolve(p, 1000, size(), target())
}

#[test]
fn side_distances_from_an_offset_center() {
    let p = Vec2I { x: 30, y: 10 };
    let closest = resolve_at(RadialGradientShape::ClosestSide, p);
    assert_eq!(closest, Vec2I { x: 40, y: 40 });
    let farthest = resolve_at(RadialGradientShape::FarthestSide, p);
    assert_eq!(farthest, Vec2I { x: 130, y: 130 });
}

#[test]
fn corner_distances_keep_the_axes_independent() {
    let p = Vec2I { x: 30, y: 10 };
    let closest = resolve_at(RadialGradientShape::ClosestCorner, p);
    assert_eq!(closest, Vec2I { x: 70, y: 40 });
    let farthest = resolve_at(RadialGradientShape::FarthestCorner, p);
    assert_eq!(farthest, Vec2I { x: 130, y: 60 });
}

#[test]
fn centered_implicit_shapes_use_the_half_extents() {
    let p = Vec2I { x: 0, y: 0 };
    assert_eq!(resolve_at(RadialGradientShape::ClosestSide, p), Vec2I { x: 50, y: 50 });
    assert_eq!(resolve_at(RadialGradientShape::FarthestSide, p), Vec2I { x: 100, y: 100 });
    assert_eq!(resolve_at(RadialGradientShape::ClosestCorner, p), Vec2I { x: 100, y: 50 });
    assert_eq!(resolve_at(RadialGradientShape::FarthestCorner, p), Vec2I { x: 100, y: 50 });
}

#[test]
fn implicit_shape_metrics_are_ordered_per_axis() {
    for p in [
        Vec2I { x: 0, y: 0 },
        Vec2I { x: 30, y: 10 },
        Vec2I { x: -70, y: 45 },
        Vec2I { x: 300, y: -200 },
    ] {
        let cs = resolve_at(RadialGradientShape::ClosestSide, p);
        let cc = resolve_at(RadialGradientShape::ClosestCorner, p);
        let fc = resolve_at(RadialGradientShape::FarthestCorner, p);
        let fs = resolve_at(RadialGradientShape::FarthestSide, p);
        assert!(cs.x <= cc.x && cc.x <= fc.x && fc.x <= fs.x);
        assert!(cs.y <= cc.y && cc.y <= fc.y && fc.y <= fs.y);
    }
}

#[test]
fn explicit_circles_scale_their_radius() {
    let shape = RadialGradientShape::Circle(ResponsiveLength::Px(50));
    let r = shape.resolve(Vec2I { x: 0, y: 0 }, 2000, size(), target());
    assert_eq!(r, Vec2I { x: 100, y: 100 });
    let auto = RadialGradientShape::Circle(ResponsiveLength::Auto);
    let z = auto.resolve(Vec2I { x: 0, y: 0 }, 2000, size(), target());
    assert_eq!(z, Vec2I { x: 0, y: 0 });
}

#[test]
fn explicit_ellipses_resolve_each_axis_against_its_size() {
    let shape = RadialGradientShape::Ellipse(
        ResponsiveLength::Percent(500),
        ResponsiveLength::Px(10),
    );
    let r = shape.resolve(Vec2I { x: 0, y: 0 }, 1000, size(), target());
    assert_eq!(r, Vec2I { x: 100, y: 10 });
}
