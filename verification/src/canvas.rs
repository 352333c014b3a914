//! The decorative animated canvas: orbiting circles, hearts and stars.
//!
//! Placement is a pure function of the elapsed animation time, the frame
//! bounds and the cursor position. Elapsed time is wrapped into a 30-second
//! loop and mapped to a phase angle, so the motion repeats seamlessly; each
//! shape of a kind is offset by an even share of the turn. A shape orbits the
//! frame centre on a flattened ellipse at its kind's speed, and is then
//! pushed off the cursor by the repulsion field. All lengths are sub-pixel
//! units (1000 to the pixel) and all angles milli-degrees.

use vstd::prelude::*;
use crate::arith::{div_trunc, div_trunc_spec, lemma_div_trunc_in};
use crate::geom::{avoid, avoid_spec, coord_ok_spec, cursor_ok, cursor_view, Vec2, Vec2S};
use crate::trig::{cos_milli, cos_milli_spec, sin_milli, sin_milli_spec};
use vstd::arithmetic::div_mod::lemma_mod_add_multiples_vanish;

verus! {

/// One loop of the animation, in milliseconds.
pub const LOOP_MS: u64 = 30000;

/// How many circles, hearts and stars the canvas shows.
pub const CIRCLE_COUNT: u64 = 5;

/// See [`CIRCLE_COUNT`].
pub const HEART_COUNT: u64 = 8;

/// See [`CIRCLE_COUNT`].
pub const STAR_COUNT: u64 = 12;

/// The size of the canvas frame, in sub-pixel units.
#[derive(Copy, Clone, PartialEq, Eq, Structural, Debug)]
pub struct Rect {
    pub width: i64,
    pub height: i64,
}

/// Frame sizes the canvas arithmetic accepts: up to 10000 pixels a side.
pub open spec fn bounds_ok(b: Rect) -> bool {
    0 <= b.width <= 10_000_000 && 0 <= b.height <= 10_000_000
}

/// Centres the arithmetic accepts; met by the centre of any accepted frame.
pub open spec fn center_ok(v: Vec2S) -> bool {
    -6_000_000 <= v.x <= 6_000_000 && -6_000_000 <= v.y <= 6_000_000
}

/// What a shape is drawn as.
#[derive(Copy, Clone, PartialEq, Eq, Structural, Debug)]
pub enum ShapeKind {
    Circle,
    Heart,
    Star,
}

/// The palette: soft background tints for the circles, fixed fills for
/// hearts and stars. The driver maps these to concrete colour values.
#[derive(Copy, Clone, PartialEq, Eq, Structural, Debug)]
pub enum ShapeColor {
    Pink,
    LightBlue,
    LightYellow,
    LightPurple,
    HeartPink,
    StarYellow,
}

/// One drawable placement: where a shape sits this frame, how large it is,
/// and (for stars) how far it has turned.
#[derive(Copy, Clone, PartialEq, Eq, Structural, Debug)]
pub struct Shape {
    pub kind: ShapeKind,
    pub center: Vec2,
    /// Radius of a circle, scale of a heart or a star, in sub-pixel units.
    pub size: i64,
    /// A star's rotation in milli-degrees; zero for other kinds.
    pub rotation_mdeg: i64,
    pub color: ShapeColor,
}

/// The mathematical value of a [`Shape`].
pub struct ShapeS {
    pub kind: ShapeKind,
    pub center: Vec2S,
    pub size: int,
    pub rotation_mdeg: int,
    pub color: ShapeColor,
}

impl View for Shape {
    type V = ShapeS;

    open spec fn view(&self) -> ShapeS {
        ShapeS {
            kind: self.kind,
            center: self.center@,
            size: self.size as int,
            rotation_mdeg: self.rotation_mdeg as int,
            color: self.color,
        }
    }
}

/// The phase angle of the animation loop, in milli-degrees: the elapsed time
/// wrapped to one loop and spread over a full turn.
pub open spec fn loop_angle_spec(elapsed_ms: int) -> int
    recommends
        elapsed_ms >= 0,
{
    (elapsed_ms % 30000) * 12
}

/// [`loop_angle_spec`], executably.
pub fn loop_angle(elapsed_ms: u64) -> (r: u64)
    ensures
        r == loop_angle_spec(elapsed_ms as int),
        r < 360000,
{
    (elapsed_ms % 30000) * 12
}

/// The centre of the frame.
pub open spec fn center_spec(b: Rect) -> Vec2S {
    Vec2S { x: div_trunc_spec(b.width as int, 2), y: div_trunc_spec(b.height as int, 2) }
}

/// [`center_spec`], executably.
pub fn frame_center(b: Rect) -> (r: Vec2)
    requires
        bounds_ok(b),
    ensures
        r@ == center_spec(b),
        center_ok(r@),
{
    Vec2 { x: div_trunc(b.width, 2), y: div_trunc(b.height, 2) }
}

/// The tint of the `i`-th background circle.
pub open spec fn circle_color_spec(i: int) -> ShapeColor {
    if i % 4 == 0 {
        ShapeColor::Pink
    } else if i % 4 == 1 {
        ShapeColor::LightBlue
    } else if i % 4 == 2 {
        ShapeColor::LightYellow
    } else {
        ShapeColor::LightPurple
    }
}

/// [`circle_color_spec`], executably.
pub fn circle_color(i: u64) -> (r: ShapeColor)
    ensures
        r == circle_color_spec(i as int),
{
    let m = i % 4;
    if m == 0 {
        ShapeColor::Pink
    } else if m == 1 {
        ShapeColor::LightBlue
    } else if m == 2 {
        ShapeColor::LightYellow
    } else {
        ShapeColor::LightPurple
    }
}

/// The `i`-th background circle: a slow orbit on a slightly flattened
/// ellipse, with a breathing radius.
pub open spec fn circle_spec(la: int, i: int, center: Vec2S, cursor: Option<Vec2S>) -> ShapeS
    recommends
        0 <= la < 360000,
        0 <= i < 5,
{
    let phase = i * 72000;
    let angle = la * 3 / 10 + phase;
    let wobble = la * 3 / 2 + phase;
    let radius = 30000 + sin_milli_spec(wobble) * 8;
    let orbit = 60000 + i * 25000;
    let x = center.x + div_trunc_spec(cos_milli_spec(angle) * orbit, 1000);
    let y = center.y + div_trunc_spec(sin_milli_spec(angle) * orbit * 7, 10000);
    ShapeS {
        kind: ShapeKind::Circle,
        center: avoid_spec(Vec2S { x, y }, cursor),
        size: radius,
        rotation_mdeg: 0,
        color: circle_color_spec(i),
    }
}

/// The `i`-th floating heart: a quicker orbit with a vertical bob and a
/// pulsing size.
pub open spec fn heart_spec(la: int, i: int, center: Vec2S, cursor: Option<Vec2S>) -> ShapeS
    recommends
        0 <= la < 360000,
        0 <= i < 8,
{
    let t = la * 4 / 5 + i * 45000;
    let orbit = 90000 + (i % 3) * 20000;
    let size = 8000 + sin_milli_spec(t * 5 / 2) * 3;
    let x = center.x + div_trunc_spec(cos_milli_spec(t) * orbit, 1000);
    let y = center.y + div_trunc_spec(sin_milli_spec(t) * orbit * 6, 10000) + sin_milli_spec(
        t * 2,
    ) * 15;
    ShapeS {
        kind: ShapeKind::Heart,
        center: avoid_spec(Vec2S { x, y }, cursor),
        size,
        rotation_mdeg: 0,
        color: ShapeColor::HeartPink,
    }
}

/// The `i`-th sparkle star: the fastest orbit, a twinkling size and a slow
/// spin.
pub open spec fn star_spec(la: int, i: int, center: Vec2S, cursor: Option<Vec2S>) -> ShapeS
    recommends
        0 <= la < 360000,
        0 <= i < 12,
{
    let t = la * 6 / 5 + i * 30000;
    let orbit = 120000 + (i % 4) * 15000;
    let tw = sin_milli_spec(t * 3);
    let size = 4000 + (if tw >= 0 {
        tw
    } else {
        -tw
    }) * 2;
    let x = center.x + div_trunc_spec(cos_milli_spec(t) * orbit, 1000);
    let y = center.y + div_trunc_spec(sin_milli_spec(t) * orbit * 8, 10000);
    ShapeS {
        kind: ShapeKind::Star,
        center: avoid_spec(Vec2S { x, y }, cursor),
        size,
        rotation_mdeg: t / 2,
        color: ShapeColor::StarYellow,
    }
}

/// [`circle_spec`], executably.
pub fn circle_shape(la: u64, i: u64, center: Vec2, cursor: Option<Vec2>) -> (s: Shape)
    requires
        la < 360000,
        i < 5,
        center_ok(center@),
        cursor_ok(cursor),
    ensures
        s@ == circle_spec(la as int, i as int, center@, cursor_view(cursor)),
{
    let phase = i * 72000;
    let angle = la * 3 / 10 + phase;
    let wobble = la * 3 / 2 + phase;
    let sin_w = sin_milli(wobble);
    let radius = 30000 + sin_w * 8;
    let orbit: i64 = 60000 + (i as i64) * 25000;
    let cos_a = cos_milli(angle);
    let sin_a = sin_milli(angle);
    proof {
        assert(-(200000 * 1000) <= cos_a as int * orbit as int <= 200000 * 1000)
            by (nonlinear_arith)
            requires
                -1000 <= cos_a as int <= 1000,
                0 <= orbit as int <= 200000,
        ;
        lemma_div_trunc_in(cos_a as int * orbit as int, 1000, 200000);
        assert(-(200000 * 10000) <= sin_a as int * orbit as int * 7 <= 200000 * 10000)
            by (nonlinear_arith)
            requires
                -1000 <= sin_a as int <= 1000,
                0 <= orbit as int <= 200000,
        ;
        lemma_div_trunc_in(sin_a as int * orbit as int * 7, 10000, 200000);
    }
    let xoff = div_trunc(cos_a * orbit, 1000);
    let yoff = div_trunc(sin_a * orbit * 7, 10000);
    let pos = Vec2 { x: center.x + xoff, y: center.y + yoff };
    let placed = avoid(pos, cursor);
    Shape {
        kind: ShapeKind::Circle,
        center: placed,
        size: radius,
        rotation_mdeg: 0,
        color: circle_color(i),
    }
}

/// [`heart_spec`], executably.
pub fn heart_shape(la: u64, i: u64, center: Vec2, cursor: Option<Vec2>) -> (s: Shape)
    requires
        la < 360000,
        i < 8,
        center_ok(center@),
        cursor_ok(cursor),
    ensures
        s@ == heart_spec(la as int, i as int, center@, cursor_view(cursor)),
{
    let t = la * 4 / 5 + i * 45000;
    let orbit: i64 = 90000 + ((i % 3) as i64) * 20000;
    let sin_t = sin_milli(t);
    let cos_t = cos_milli(t);
    let sin_2t = sin_milli(t * 2);
    let sin_t25 = sin_milli(t * 5 / 2);
    let size = 8000 + sin_t25 * 3;
    proof {
        assert(-(200000 * 1000) <= cos_t as int * orbit as int <= 200000 * 1000)
            by (nonlinear_arith)
            requires
                -1000 <= cos_t as int <= 1000,
                0 <= orbit as int <= 200000,
        ;
        lemma_div_trunc_in(cos_t as int * orbit as int, 1000, 200000);
        assert(-(200000 * 10000) <= sin_t as int * orbit as int * 6 <= 200000 * 10000)
            by (nonlinear_arith)
            requires
                -1000 <= sin_t as int <= 1000,
                0 <= orbit as int <= 200000,
        ;
        lemma_div_trunc_in(sin_t as int * orbit as int * 6, 10000, 200000);
    }
    let xoff = div_trunc(cos_t * orbit, 1000);
    let ybase = div_trunc(sin_t * orbit * 6, 10000);
    let pos = Vec2 { x: center.x + xoff, y: center.y + ybase + sin_2t * 15 };
    let placed = avoid(pos, cursor);
    Shape {
        kind: ShapeKind::Heart,
        center: placed,
        size,
        rotation_mdeg: 0,
        color: ShapeColor::HeartPink,
    }
}

/// [`star_spec`], executably.
pub fn star_shape(la: u64, i: u64, center: Vec2, cursor: Option<Vec2>) -> (s: Shape)
    requires
        la < 360000,
        i < 12,
        center_ok(center@),
        cursor_ok(cursor),
    ensures
        s@ == star_spec(la as int, i as int, center@, cursor_view(cursor)),
{
    let t = la * 6 / 5 + i * 30000;
    let orbit: i64 = 120000 + ((i % 4) as i64) * 15000;
    let sin_t = sin_milli(t);
    let cos_t = cos_milli(t);
    let sin_3t = sin_milli(t * 3);
    let tw = if sin_3t >= 0 {
        sin_3t
    } else {
        -sin_3t
    };
    let size = 4000 + tw * 2;
    proof {
        assert(-(200000 * 1000) <= cos_t as int * orbit as int <= 200000 * 1000)
            by (nonlinear_arith)
            requires
                -1000 <= cos_t as int <= 1000,
                0 <= orbit as int <= 200000,
        ;
        lemma_div_trunc_in(cos_t as int * orbit as int, 1000, 200000);
        assert(-(200000 * 10000) <= sin_t as int * orbit as int * 8 <= 200000 * 10000)
            by (nonlinear_arith)
            requires
                -1000 <= sin_t as int <= 1000,
                0 <= orbit as int <= 200000,
        ;
        lemma_div_trunc_in(sin_t as int * orbit as int * 8, 10000, 200000);
    }
    let xoff = div_trunc(cos_t * orbit, 1000);
    let yoff = div_trunc(sin_t * orbit * 8, 10000);
    let pos = Vec2 { x: center.x + xoff, y: center.y + yoff };
    let placed = avoid(pos, cursor);
    Shape {
        kind: ShapeKind::Star,
        center: placed,
        size,
        rotation_mdeg: (t / 2) as i64,
        color: ShapeColor::StarYellow,
    }
}

/// The `j`-th placement of a frame: the five circles, then the eight hearts,
/// then the twelve stars.
pub open spec fn shape_at(elapsed_ms: int, bounds: Rect, cursor: Option<Vec2S>, j: int) -> ShapeS
    recommends
        elapsed_ms >= 0,
        0 <= j < 25,
{
    let la = loop_angle_spec(elapsed_ms);
    let center = center_spec(bounds);
    if j < 5 {
        circle_spec(la, j, center, cursor)
    } else if j < 13 {
        heart_spec(la, j - 5, center, cursor)
    } else {
        star_spec(la, j - 13, center, cursor)
    }
}

/// The animated canvas: all it retains is the clock value it was created
/// with, so a frame is a pure function of that clock and the cursor.
pub struct KawaiiCanvas {
    /// Milliseconds of animation time at this frame.
    pub animation_millis: u64,
}

impl KawaiiCanvas {
    /// A canvas for the given animation clock value.
    pub fn new(animation_millis: u64) -> (r: Self)
        ensures
            r.animation_millis == animation_millis,
    {
        KawaiiCanvas { animation_millis }
    }

    /// Every placement of one frame, in drawing order.
    pub fn draw(&self, bounds: Rect, cursor: Option<Vec2>) -> (shapes: Vec<Shape>)
        requires
            bounds_ok(bounds),
            cursor_ok(cursor),
        ensures
            shapes@.len() == 25,
            forall|j: int|
                0 <= j < 25 ==> shapes@[j]@ == shape_at(
                    self.animation_millis as int,
                    bounds,
                    cursor_view(cursor),
                    j,
                ),
    {
        let la = loop_angle(self.animation_millis);
        let center = frame_center(bounds);
        let mut shapes: Vec<Shape> = Vec::new();
        let ghost t = self.animation_millis as int;
        let ghost cv = cursor_view(cursor);
        let mut i: u64 = 0;
        while i < 5
            invariant
                i <= 5,
                shapes@.len() == i,
                la == loop_angle_spec(t),
                la < 360000,
                center@ == center_spec(bounds),
                center_ok(center@),
                cursor_ok(cursor),
                cv == cursor_view(cursor),
                forall|j: int| 0 <= j < i ==> shapes@[j]@ == shape_at(t, bounds, cv, j),
            decreases 5 - i,
        {
            shapes.push(circle_shape(la, i, center, cursor));
            i = i + 1;
        }
        let mut i: u64 = 0;
        while i < 8
            invariant
                i <= 8,
                shapes@.len() == 5 + i,
                la == loop_angle_spec(t),
                la < 360000,
                center@ == center_spec(bounds),
                center_ok(center@),
                cursor_ok(cursor),
                cv == cursor_view(cursor),
                forall|j: int| 0 <= j < 5 + i ==> shapes@[j]@ == shape_at(t, bounds, cv, j),
            decreases 8 - i,
        {
            shapes.push(heart_shape(la, i, center, cursor));
            i = i + 1;
        }
        let mut i: u64 = 0;
        while i < 12
            invariant
                i <= 12,
                shapes@.len() == 13 + i,
                la == loop_angle_spec(t),
                la < 360000,
                center@ == center_spec(bounds),
                center_ok(center@),
                cursor_ok(cursor),
                cv == cursor_view(cursor),
                forall|j: int| 0 <= j < 13 + i ==> shapes@[j]@ == shape_at(t, bounds, cv, j),
            decreases 12 - i,
        {
            shapes.push(star_shape(la, i, center, cursor));
            i = i + 1;
        }
        shapes
    }
}

/// The `k`-th vertex of an unrotated four-pointed star of the given size:
/// points on the axes, waists at three tenths of the size.
pub open spec fn star_base_point(size: int, k: int) -> Vec2S
    recommends
        size >= 0,
        0 <= k < 8,
{
    let w = size * 3 / 10;
    if k == 0 {
        Vec2S { x: 0, y: -size }
    } else if k == 1 {
        Vec2S { x: w, y: -w }
    } else if k == 2 {
        Vec2S { x: size, y: 0 }
    } else if k == 3 {
        Vec2S { x: w, y: w }
    } else if k == 4 {
        Vec2S { x: 0, y: size }
    } else if k == 5 {
        Vec2S { x: -w, y: w }
    } else if k == 6 {
        Vec2S { x: -size, y: 0 }
    } else {
        Vec2S { x: -w, y: -w }
    }
}

/// A point turned about the origin by an angle in milli-degrees.
pub open spec fn rotate_spec(v: Vec2S, rot: int) -> Vec2S
    recommends
        rot >= 0,
{
    let c = cos_milli_spec(rot);
    let s = sin_milli_spec(rot);
    Vec2S {
        x: div_trunc_spec(v.x * c - v.y * s, 1000),
        y: div_trunc_spec(v.x * s + v.y * c, 1000),
    }
}

/// The `k`-th vertex of a star as placed: rotated, then moved to its centre.
pub open spec fn star_point_spec(center: Vec2S, size: int, rot: int, k: int) -> Vec2S
    recommends
        size >= 0,
        rot >= 0,
        0 <= k < 8,
{
    let r = rotate_spec(star_base_point(size, k), rot);
    Vec2S { x: center.x + r.x, y: center.y + r.y }
}

/// The polygon of a star placement, in drawing order.
pub fn star_points(center: Vec2, size: i64, rot: u64) -> (points: Vec<Vec2>)
    requires
        0 <= size <= 100_000,
        rot <= 0xffff_ffff_fff0_0000,
        coord_ok_spec(center@),
    ensures
        points@.len() == 8,
        forall|k: int|
            0 <= k < 8 ==> points@[k]@ == star_point_spec(center@, size as int, rot as int, k),
{
    let c = cos_milli(rot);
    let s = sin_milli(rot);
    let w = div_trunc(size * 3, 10);
    let mut points: Vec<Vec2> = Vec::new();
    let mut k: u64 = 0;
    while k < 8
        invariant
            k <= 8,
            points@.len() == k,
            0 <= size <= 100_000,
            0 <= w <= size,
            w == div_trunc_spec(size as int * 3, 10),
            c == cos_milli_spec(rot as int),
            s == sin_milli_spec(rot as int),
            -1000 <= c <= 1000,
            -1000 <= s <= 1000,
            coord_ok_spec(center@),
            forall|j: int|
                0 <= j < k ==> points@[j]@ == star_point_spec(center@, size as int, rot as int, j),
        decreases 8 - k,
    {
        let b = if k == 0 {
            Vec2 { x: 0, y: -size }
        } else if k == 1 {
            Vec2 { x: w, y: -w }
        } else if k == 2 {
            Vec2 { x: size, y: 0 }
        } else if k == 3 {
            Vec2 { x: w, y: w }
        } else if k == 4 {
            Vec2 { x: 0, y: size }
        } else if k == 5 {
            Vec2 { x: -w, y: w }
        } else if k == 6 {
            Vec2 { x: -size, y: 0 }
        } else {
            Vec2 { x: -w, y: -w }
        };
        proof {
            assert(b@ == star_base_point(size as int, k as int)) by {
                assert(size as int * 3 == size * 3);
            }
            assert(-(400_000 * 1000) <= b@.x * (c as int) - b@.y * (s as int) <= 400_000 * 1000)
                by (nonlinear_arith)
                requires
                    -100_000 <= b@.x <= 100_000,
                    -100_000 <= b@.y <= 100_000,
                    -1000 <= c as int <= 1000,
                    -1000 <= s as int <= 1000,
            ;
            lemma_div_trunc_in(b@.x * (c as int) - b@.y * (s as int), 1000, 400_000);
            assert(-(400_000 * 1000) <= b@.x * (s as int) + b@.y * (c as int) <= 400_000 * 1000)
                by (nonlinear_arith)
                requires
                    -100_000 <= b@.x <= 100_000,
                    -100_000 <= b@.y <= 100_000,
                    -1000 <= c as int <= 1000,
                    -1000 <= s as int <= 1000,
            ;
            lemma_div_trunc_in(b@.x * (s as int) + b@.y * (c as int), 1000, 400_000);
            assert(-(100_000 * 1000) <= b@.x * (c as int) <= 100_000 * 1000 && -(100_000 * 1000)
                <= b@.y * (s as int) <= 100_000 * 1000 && -(100_000 * 1000) <= b@.x * (s as int)
                <= 100_000 * 1000 && -(100_000 * 1000) <= b@.y * (c as int) <= 100_000 * 1000)
                by (nonlinear_arith)
                requires
                    -100_000 <= b@.x <= 100_000,
                    -100_000 <= b@.y <= 100_000,
                    -1000 <= c as int <= 1000,
                    -1000 <= s as int <= 1000,
            ;
        }
        let rx = div_trunc(b.x * c - b.y * s, 1000);
        let ry = div_trunc(b.x * s + b.y * c, 1000);
        points.push(Vec2 { x: center.x + rx, y: center.y + ry });
        k = k + 1;
    }
    points
}

/// The `k`-th control point of a heart's outline: the top notch, then the
/// two cubic arcs' controls, right lobe first, closing back at the notch.
pub open spec fn heart_point_spec(center: Vec2S, size: int, k: int) -> Vec2S
    recommends
        size >= 0,
        0 <= k < 7,
{
    let x = center.x;
    let y = center.y;
    let quarter = size / 4;
    let half = size / 2;
    if k == 0 {
        Vec2S { x, y: y + quarter }
    } else if k == 1 {
        Vec2S { x: x + half, y: y - half }
    } else if k == 2 {
        Vec2S { x: x + size, y }
    } else if k == 3 {
        Vec2S { x, y: y + size }
    } else if k == 4 {
        Vec2S { x: x - size, y }
    } else if k == 5 {
        Vec2S { x: x - half, y: y - half }
    } else {
        Vec2S { x, y: y + quarter }
    }
}

/// The control points of a heart placement, in drawing order.
pub fn heart_points(center: Vec2, size: i64) -> (points: Vec<Vec2>)
    requires
        0 <= size <= 100_000,
        coord_ok_spec(center@),
    ensures
        points@.len() == 7,
        forall|k: int| 0 <= k < 7 ==> points@[k]@ == heart_point_spec(center@, size as int, k),
{
    let quarter = div_trunc(size, 4);
    let half = div_trunc(size, 2);
    let x = center.x;
    let y = center.y;
    proof {
        assert(size as int / 4 == div_trunc_spec(size as int, 4));
        assert(size as int / 2 == div_trunc_spec(size as int, 2));
    }
    let mut points: Vec<Vec2> = Vec::new();
    points.push(Vec2 { x, y: y + quarter });
    points.push(Vec2 { x: x + half, y: y - half });
    points.push(Vec2 { x: x + size, y });
    points.push(Vec2 { x, y: y + size });
    points.push(Vec2 { x: x - size, y });
    points.push(Vec2 { x: x - half, y: y - half });
    points.push(Vec2 { x, y: y + quarter });
    points
}

/// Advancing the clock by exactly one loop leaves every placement of the
/// frame unchanged: the animation loops seamlessly.
pub proof fn lemma_animation_loops(elapsed_ms: int, bounds: Rect, cursor: Option<Vec2S>, j: int)
    requires
        elapsed_ms >= 0,
        0 <= j < 25,
    ensures
        shape_at(elapsed_ms + 30000, bounds, cursor, j) == shape_at(elapsed_ms, bounds, cursor, j),
{
    lemma_mod_add_multiples_vanish(elapsed_ms, 30000);
    assert(loop_angle_spec(elapsed_ms + 30000) == loop_angle_spec(elapsed_ms));
}

} // verus!
