use libby::arith::{ceil_div, div_away, div_trunc, isqrt};
use libby::canvas::{frame_center, heart_points, loop_angle, star_points, KawaiiCanvas, Rect,
    Shape, ShapeColor, ShapeKind};
use libby::geom::{avoid, repel, Vec2};
use libby::trig::{cos_milli, sin_milli};

const BOUNDS: Rect = Rect { width: 800_000, height: 600_000 };

#[test]
fn integer_square_roots() {
    assert_eq!(isqrt(0), 0);
    assert_eq!(isqrt(1), 1);
    assert_eq!(isqrt(15), 3);
    assert_eq!(isqrt(16), 4);
    assert_eq!(isqrt(99_999_999), 9999);
    assert_eq!(isqrt(u64::MAX), 4294967295);
}

#[test]
fn rounding_divisions() {
    assert_eq!(ceil_div(7, 2), 4);
    assert_eq!(ceil_div(8, 2), 4);
    assert_eq!(div_away(7, 2), 4);
    assert_eq!(div_away(-7, 2), -4);
    assert_eq!(div_trunc(7, 2), 3);
    assert_eq!(div_trunc(-7, 2), -3);
}

#[test]
fn exact_sines() {
    assert_eq!(sin_milli(0), 0);
    assert_eq!(sin_milli(30_000), 500);
    assert_eq!(sin_milli(90_000), 1000);
    assert_eq!(sin_milli(180_000), 0);
    assert_eq!(sin_milli(270_000), -1000);
    assert_eq!(sin_milli(360_000), 0);
    assert_eq!(sin_milli(450_000), 1000);
    assert_eq!(cos_milli(0), 1000);
    assert_eq!(cos_milli(90_000), 0);
    assert_eq!(cos_milli(180_000), -1000);
}

#[test]
fn loop_angle_wraps_the_clock() {
    assert_eq!(loop_angle(0), 0);
    assert_eq!(loop_angle(15_000), 180_000);
    assert_eq!(loop_angle(30_000), 0);
    assert_eq!(loop_angle(31_000), 12_000);
}

#[test]
fn frame_center_is_half_the_bounds() {
    assert_eq!(frame_center(BOUNDS), Vec2 { x: 400_000, y: 300_000 });
}

#[test]
fn repulsion_leaves_outside_points_alone() {
    let cursor = Vec2 { x: 0, y: 0 };
    let p = Vec2 { x: 20_001, y: 0 };
    assert_eq!(repel(p, cursor), p);
    let q = Vec2 { x: 20_000, y: 0 };
    assert_eq!(repel(q, cursor), q);
}

#[test]
fn repulsion_skips_a_point_at_the_cursor() {
    let cursor = Vec2 { x: 1234, y: -99 };
    assert_eq!(repel(cursor, cursor), cursor);
}

#[test]
fn repulsion_pushes_an_inside_point_strictly_away() {
    let cursor = Vec2 { x: 10_000, y: 0 };
    let p = Vec2 { x: 0, y: 0 };
    let r = repel(p, cursor);
    assert_eq!(r, Vec2 { x: -7_500, y: 0 });
    let before = {
        let dx = (p.x - cursor.x) as i128;
        let dy = (p.y - cursor.y) as i128;
        dx * dx + dy * dy
    };
    let after = {
        let dx = (r.x - cursor.x) as i128;
        let dy = (r.y - cursor.y) as i128;
        dx * dx + dy * dy
    };
    assert!(after > before);
}

#[test]
fn an_absent_cursor_repels_nothing() {
    let p = Vec2 { x: 5, y: 5 };
    assert_eq!(avoid(p, None), p);
}

#[test]
fn a_frame_has_circles_then_hearts_then_stars() {
    let canvas = KawaiiCanvas::new(4321);
    let shapes = canvas.draw(BOUNDS, None);
    assert_eq!(shapes.len(), 25);
    for (j, s) in shapes.iter().enumerate() {
        let kind = if j < 5 {
            ShapeKind::Circle
        } else if j < 13 {
            ShapeKind::Heart
        } else {
            ShapeKind::Star
        };
        assert_eq!(s.kind, kind);
    }
    assert_eq!(shapes[0].color, ShapeColor::Pink);
    assert_eq!(shapes[1].color, ShapeColor::LightBlue);
    assert_eq!(shapes[2].color, ShapeColor::LightYellow);
    assert_eq!(shapes[3].color, ShapeColor::LightPurple);
    assert_eq!(shapes[4].color, ShapeColor::Pink);
    assert_eq!(shapes[5].color, ShapeColor::HeartPink);
    assert_eq!(shapes[13].color, ShapeColor::StarYellow);
}

#[test]
fn first_shapes_of_the_loop_start_on_the_axes() {
    let canvas = KawaiiCanvas::new(0);
    let shapes = canvas.draw(Rect { width: 0, height: 0 }, None);
    let circle = shapes[0];
    assert_eq!(circle.center, Vec2 { x: 60_000, y: 0 });
    assert_eq!(circle.size, 30_000);
    let heart = shapes[5];
    assert_eq!(heart.center, Vec2 { x: 90_000, y: 0 });
    assert_eq!(heart.size, 8_000);
    let star = shapes[13];
    assert_eq!(star.center, Vec2 { x: 120_000, y: 0 });
    assert_eq!(star.size, 4_000);
    assert_eq!(star.rotation_mdeg, 0);
}

fn frames_equal(a: &[Shape], b: &[Shape]) -> bool {
    a.len() == b.len() && a.iter().zip(b.iter()).all(|(x, y)| x == y)
}

#[test]
fn a_frame_is_a_pure_function_of_its_inputs() {
    let cursor = Some(Vec2 { x: 420_000, y: 280_000 });
    let canvas = KawaiiCanvas::new(12_345);
    let once = canvas.draw(BOUNDS, cursor);
    let again = canvas.draw(BOUNDS, cursor);
    assert!(frames_equal(&once, &again));
}

#[test]
fn one_loop_later_the_frame_repeats_exactly() {
    let cursor = Some(Vec2 { x: 420_000, y: 280_000 });
    let now = KawaiiCanvas::new(12_345).draw(BOUNDS, cursor);
    let later = KawaiiCanvas::new(12_345 + 30_000).draw(BOUNDS, cursor);
    assert!(frames_equal(&now, &later));
    let start = KawaiiCanvas::new(0).draw(BOUNDS, cursor);
    let one_loop = KawaiiCanvas::new(30_000).draw(BOUNDS, cursor);
    assert!(frames_equal(&start, &one_loop));
}

#[test]
fn unrotated_star_points_sit_on_axes_and_waists() {
    let points = star_points(Vec2 { x: 0, y: 0 }, 1000, 0);
    assert_eq!(points.len(), 8);
    assert_eq!(points[0], Vec2 { x: 0, y: -1000 });
    assert_eq!(points[1], Vec2 { x: 300, y: -300 });
    assert_eq!(points[2], Vec2 { x: 1000, y: 0 });
    assert_eq!(points[4], Vec2 { x: 0, y: 1000 });
    assert_eq!(points[6], Vec2 { x: -1000, y: 0 });
}

#[test]
fn a_quarter_turn_carries_the_top_point_to_the_right() {
    let points = star_points(Vec2 { x: 0, y: 0 }, 1000, 90_000);
    assert_eq!(points[0], Vec2 { x: 1000, y: 0 });
    assert_eq!(points[2], Vec2 { x: 0, y: 1000 });
}

#[test]
fn heart_outline_control_points() {
    let points = heart_points(Vec2 { x: 0, y: 0 }, 8000);
    assert_eq!(points.len(), 7);
    assert_eq!(points[0], Vec2 { x: 0, y: 2000 });
    assert_eq!(points[1], Vec2 { x: 4000, y: -4000 });
    assert_eq!(points[2], Vec2 { x: 8000, y: 0 });
    assert_eq!(points[3], Vec2 { x: 0, y: 8000 });
    assert_eq!(points[4], Vec2 { x: -8000, y: 0 });
    assert_eq!(points[5], Vec2 { x: -4000, y: -4000 });
    assert_eq!(points[6], Vec2 { x: 0, y: 2000 });
}
