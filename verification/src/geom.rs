//! Plane geometry in sub-pixel units, and the cursor-repulsion field.
//!
//! Coordinates are signed and carry 1000 sub-units to the pixel. The
//! repulsion step pushes a point directly away from the cursor when it lies
//! strictly inside the avoidance radius, by an amount that fades linearly to
//! zero at the radius; a point at the cursor itself is left alone, as is any
//! point at or beyond the radius.

use vstd::prelude::*;
use crate::arith::{ceil_div, ceil_div_spec, div_away, div_away_spec, isqrt, lemma_sqrt_floor,
    sqrt_floor};
use vstd::arithmetic::div_mod::lemma_basic_div;
use vstd::arithmetic::div_mod::lemma_div_by_self;
use vstd::arithmetic::div_mod::lemma_div_is_ordered;

verus! {

/// The radius around the cursor inside which points are pushed away,
/// in sub-pixel units (20 pixels).
pub const AVOIDANCE_RADIUS: i64 = 20000;

/// The largest push applied at the cursor itself, in sub-pixel units
/// (15 pixels).
pub const REPULSION_STRENGTH: i64 = 15000;

/// A point or offset of the canvas, in sub-pixel units.
#[derive(Copy, Clone, PartialEq, Eq, Structural, Debug)]
pub struct Vec2 {
    pub x: i64,
    pub y: i64,
}

/// The mathematical value of a [`Vec2`].
pub struct Vec2S {
    pub x: int,
    pub y: int,
}

impl View for Vec2 {
    type V = Vec2S;

    open spec fn view(&self) -> Vec2S {
        Vec2S { x: self.x as int, y: self.y as int }
    }
}

/// The mathematical value of an optional cursor position.
pub open spec fn cursor_view(c: Option<Vec2>) -> Option<Vec2S> {
    match c {
        Some(v) => Some(v@),
        None => None,
    }
}

/// Coordinates the canvas arithmetic accepts: within 100000 pixels of the
/// origin, so that squared distances and pushes stay well inside `i64`.
pub open spec fn coord_ok_spec(v: Vec2S) -> bool {
    -100_000_000 <= v.x <= 100_000_000 && -100_000_000 <= v.y <= 100_000_000
}

/// [`coord_ok_spec`] for an exec point.
pub open spec fn coord_ok(v: Vec2) -> bool {
    coord_ok_spec(v@)
}

/// [`coord_ok`] for an optional cursor.
pub open spec fn cursor_ok(c: Option<Vec2>) -> bool {
    match c {
        Some(v) => coord_ok(v),
        None => true,
    }
}

/// The squared distance between two points.
pub open spec fn dist2(p: Vec2S, c: Vec2S) -> int {
    (p.x - c.x) * (p.x - c.x) + (p.y - c.y) * (p.y - c.y)
}

/// Where the repulsion field sends a point `p` given the cursor at `c`.
pub open spec fn repel_spec(p: Vec2S, c: Vec2S) -> Vec2S {
    let dx = p.x - c.x;
    let dy = p.y - c.y;
    let d2 = dx * dx + dy * dy;
    if d2 == 0 || d2 >= 400_000_000 {
        p
    } else {
        let d = sqrt_floor(d2 as nat) as int;
        let f = ceil_div_spec((20000 - d) * 15000, 20000);
        Vec2S { x: p.x + div_away_spec(dx * f, d), y: p.y + div_away_spec(dy * f, d) }
    }
}

/// Repulsion when a cursor is present; an absent cursor repels nothing.
pub open spec fn avoid_spec(p: Vec2S, cursor: Option<Vec2S>) -> Vec2S {
    match cursor {
        Some(c) => repel_spec(p, c),
        None => p,
    }
}

/// A square is never negative.
proof fn lemma_square_nonneg(a: int)
    ensures
        a * a >= 0,
{
    assert(a * a >= 0) by (nonlinear_arith);
}

/// The repulsion step, executably.
pub fn repel(p: Vec2, c: Vec2) -> (r: Vec2)
    requires
        coord_ok(p),
        coord_ok(c),
    ensures
        r@ == repel_spec(p@, c@),
{
    let dx = p.x - c.x;
    let dy = p.y - c.y;
    proof {
        assert(dx * dx + dy * dy <= 80_000_000_000_000_000) by (nonlinear_arith)
            requires
                -200_000_000 <= dx <= 200_000_000,
                -200_000_000 <= dy <= 200_000_000,
        ;
        lemma_square_nonneg(dx as int);
        lemma_square_nonneg(dy as int);
    }
    let d2 = dx * dx + dy * dy;
    if d2 == 0 || d2 >= 400_000_000 {
        p
    } else {
        let d_wide = isqrt(d2 as u64);
        proof {
            lemma_sqrt_floor(d2 as nat);
            assert(d_wide < 20000) by (nonlinear_arith)
                requires
                    (d_wide as int) * (d_wide as int) <= d2 as int,
                    d2 < 400_000_000,
                    d_wide >= 0,
            ;
            assert(d_wide >= 1) by (nonlinear_arith)
                requires
                    (d2 as int) < (d_wide as int + 1) * (d_wide as int + 1),
                    d2 >= 1,
                    d_wide >= 0,
            ;
        }
        let d = d_wide as i64;
        let f_wide = ceil_div((20000 - d_wide) * 15000, 20000);
        proof {
            assert(f_wide <= 15000) by (nonlinear_arith)
                requires
                    f_wide == ((20000 - d_wide as int) * 15000 + 20000 - 1) / 20000,
                    1 <= d_wide as int && (d_wide as int) < 20000,
            ;
            assert(dx * dx < (d_wide as int + 1) * (d_wide as int + 1) ==> -(d_wide as int) <= dx
                as int <= d_wide as int) by (nonlinear_arith);
            assert(dy * dy < (d_wide as int + 1) * (d_wide as int + 1) ==> -(d_wide as int) <= dy
                as int <= d_wide as int) by (nonlinear_arith);
            assert(dx * dx <= d2 as int && dy * dy <= d2 as int) by (nonlinear_arith)
                requires
                    d2 as int == dx as int * dx as int + dy as int * dy as int,
                    dx as int * dx as int >= 0,
                    dy as int * dy as int >= 0,
            ;
            assert(-(20000 * 15000) <= dx as int * f_wide as int <= 20000 * 15000)
                by (nonlinear_arith)
                requires
                    -20000 <= dx as int <= 20000,
                    0 <= f_wide as int <= 15000,
            ;
            assert(-(20000 * 15000) <= dy as int * f_wide as int <= 20000 * 15000)
                by (nonlinear_arith)
                requires
                    -20000 <= dy as int <= 20000,
                    0 <= f_wide as int <= 15000,
            ;
        }
        let f = f_wide as i64;
        let px = div_away(dx * f, d);
        let py = div_away(dy * f, d);
        Vec2 { x: p.x + px, y: p.y + py }
    }
}

/// The repulsion step with an optional cursor, executably.
pub fn avoid(p: Vec2, cursor: Option<Vec2>) -> (r: Vec2)
    requires
        coord_ok(p),
        cursor_ok(cursor),
    ensures
        r@ == avoid_spec(p@, cursor_view(cursor)),
{
    match cursor {
        Some(c) => repel(p, c),
        None => p,
    }
}

/// A point at or beyond the avoidance radius is left exactly where it was;
/// in particular one strictly outside the radius is unchanged.
pub proof fn lemma_repel_outside(p: Vec2S, c: Vec2S)
    requires
        dist2(p, c) >= 400_000_000,
    ensures
        repel_spec(p, c) == p,
{
}

/// A point strictly inside the avoidance radius, but not at the cursor
/// itself, moves strictly farther from the cursor.
pub proof fn lemma_repel_pushes_away(p: Vec2S, c: Vec2S)
    requires
        0 < dist2(p, c) < 400_000_000,
    ensures
        dist2(repel_spec(p, c), c) > dist2(p, c),
{
    let dx = p.x - c.x;
    let dy = p.y - c.y;
    let d2 = dx * dx + dy * dy;
    lemma_square_nonneg(dx);
    lemma_square_nonneg(dy);
    lemma_sqrt_floor(d2 as nat);
    let d = sqrt_floor(d2 as nat) as int;
    assert(d < 20000) by (nonlinear_arith)
        requires
            d * d <= d2,
            d2 < 400_000_000,
            d >= 0,
    ;
    assert(d >= 1) by (nonlinear_arith)
        requires
            d2 < (d + 1) * (d + 1),
            d2 >= 1,
            d >= 0,
    ;
    let a0 = (20000 - d) * 15000;
    assert(a0 >= 15000) by (nonlinear_arith)
        requires
            1 <= d < 20000,
            a0 == (20000 - d) * 15000,
    ;
    let f = ceil_div_spec(a0, 20000);
    assert(f >= 1) by {
        lemma_div_by_self(20000);
        lemma_div_is_ordered(20000, a0 + 20000 - 1, 20000);
    }
    let qx = div_away_spec(dx * f, d);
    let qy = div_away_spec(dy * f, d);
    lemma_push_component(dx, f, d, qx);
    lemma_push_component(dy, f, d, qy);
    let nx = dx + qx;
    let ny = dy + qy;
    assert(repel_spec(p, c).x - c.x == nx);
    assert(repel_spec(p, c).y - c.y == ny);
    if dx != 0 {
        assert(nx * nx > dx * dx && ny * ny >= dy * dy) by (nonlinear_arith)
            requires
                dx != 0,
                (dx >= 1 ==> nx >= dx + 1) && (dx <= -1 ==> nx <= dx - 1) && (dx == 0 ==> nx
                    == 0),
                (dy >= 1 ==> ny >= dy + 1) && (dy <= -1 ==> ny <= dy - 1) && (dy == 0 ==> ny
                    == 0),
        ;
    } else {
        assert(dy != 0);
        assert(ny * ny > dy * dy && nx * nx >= dx * dx) by (nonlinear_arith)
            requires
                dy != 0,
                (dx >= 1 ==> nx >= dx + 1) && (dx <= -1 ==> nx <= dx - 1) && (dx == 0 ==> nx
                    == 0),
                (dy >= 1 ==> ny >= dy + 1) && (dy <= -1 ==> ny <= dy - 1) && (dy == 0 ==> ny
                    == 0),
        ;
    }
}

/// How one coordinate of the push moves: away from the cursor by at least a
/// whole sub-pixel unit wherever the coordinate offset is not zero.
proof fn lemma_push_component(dv: int, f: int, d: int, q: int)
    requires
        d >= 1,
        f >= 1,
        q == div_away_spec(dv * f, d),
    ensures
        dv >= 1 ==> q >= 1,
        dv <= -1 ==> q <= -1,
        dv == 0 ==> q == 0,
{
    let a = dv * f;
    if dv >= 1 {
        assert(a >= 1) by (nonlinear_arith)
            requires
                dv >= 1,
                f >= 1,
                a == dv * f,
        ;
        assert((a + d - 1) / d >= 1) by {
            lemma_div_by_self(d);
            lemma_div_is_ordered(d, a + d - 1, d);
        }
    } else if dv <= -1 {
        assert(a <= -1) by (nonlinear_arith)
            requires
                dv <= -1,
                f >= 1,
                a == dv * f,
        ;
        assert((-a + d - 1) / d >= 1) by {
            lemma_div_by_self(d);
            lemma_div_is_ordered(d, -a + d - 1, d);
        }
    } else {
        assert(a == 0) by (nonlinear_arith)
            requires
                dv == 0,
                a == dv * f,
        ;
        assert((0 + d - 1) / d == 0) by {
            lemma_basic_div(d - 1, d);
        }
    }
}

} // verus!
