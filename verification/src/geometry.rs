//! Points of the arena and the tests between them: inside the screen,
//! overlapping, nearer.
use vstd::prelude::*;
use crate::fixed::{sat_add, sat_mul, sat_sub, spec_sat_add, spec_sat_mul, spec_sat_sub};

verus! {

/// A point or an offset, each coordinate a fixed-point scalar.
#[derive(Clone, Copy, Debug, PartialEq, Eq, Structural)]
pub struct Vec2 {
    pub x: i64,
    pub y: i64,
}

/// A direction as the caller's trigonometry gave it: cosine and sine of an
/// angle, both fixed-point.
#[derive(Clone, Copy, Debug, PartialEq, Eq, Structural)]
pub struct Heading {
    pub cos: i64,
    pub sin: i64,
}

impl Vec2 {
    pub fn new(x: i64, y: i64) -> (v: Vec2)
        ensures
            v == (Vec2 { x, y }),
    {
        Vec2 { x, y }
    }

    /// The sum, each coordinate saturating.
    pub open spec fn plus(self, other: Vec2) -> Vec2 {
        Vec2 { x: spec_sat_add(self.x, other.x), y: spec_sat_add(self.y, other.y) }
    }

    /// `self` moved by `other`.
    pub fn offset(self, other: Vec2) -> (v: Vec2)
        ensures
            v == self.plus(other),
    {
        Vec2 { x: sat_add(self.x, other.x), y: sat_add(self.y, other.y) }
    }

    /// Squared distance to `other`, as a mathematical integer.
    pub open spec fn dist2(self, other: Vec2) -> int {
        (self.x - other.x) * (self.x - other.x) + (self.y - other.y) * (self.y - other.y)
    }

    /// Whether the point lies outside the rectangle from the origin to `bounds`.
    pub open spec fn outside(self, bounds: Vec2) -> bool {
        self.x < 0 || self.x > bounds.x || self.y < 0 || self.y > bounds.y
    }
}

/// The step of length `length` along screen direction `h`: x grows with the
/// cosine, y with the sine.
pub open spec fn spec_along(h: Heading, length: i64) -> Vec2 {
    Vec2 { x: spec_sat_mul(h.cos, length), y: spec_sat_mul(h.sin, length) }
}

#[verifier::when_used_as_spec(spec_along)]
pub fn along(h: Heading, length: i64) -> (v: Vec2)
    ensures
        v == spec_along(h, length),
{
    Vec2 { x: sat_mul(h.cos, length), y: sat_mul(h.sin, length) }
}

/// The same step with the y axis pointing down the screen: y falls as the
/// sine grows.
pub open spec fn spec_along_flipped(h: Heading, length: i64) -> Vec2 {
    Vec2 { x: spec_sat_mul(h.cos, length), y: spec_sat_sub(0, spec_sat_mul(h.sin, length)) }
}

#[verifier::when_used_as_spec(spec_along_flipped)]
pub fn along_flipped(h: Heading, length: i64) -> (v: Vec2)
    ensures
        v == spec_along_flipped(h, length),
{
    Vec2 { x: sat_mul(h.cos, length), y: sat_sub(0, sat_mul(h.sin, length)) }
}

/// A coordinate that left `[0, max]` re-enters at the opposite edge.
pub open spec fn spec_wrap_coord(coord: i64, max: i64) -> i64 {
    if coord < 0 {
        max
    } else if coord > max {
        0
    } else {
        coord
    }
}

#[verifier::when_used_as_spec(spec_wrap_coord)]
pub fn wrap_coord(coord: i64, max: i64) -> (r: i64)
    ensures
        r == spec_wrap_coord(coord, max),
        max >= 0 ==> 0 <= r <= max,
{
    if coord < 0 {
        max
    } else if coord > max {
        0
    } else {
        coord
    }
}

pub open spec fn spec_wrap_position(pos: Vec2, bounds: Vec2) -> Vec2 {
    Vec2 { x: spec_wrap_coord(pos.x, bounds.x), y: spec_wrap_coord(pos.y, bounds.y) }
}

#[verifier::when_used_as_spec(spec_wrap_position)]
pub fn wrap_position(pos: Vec2, bounds: Vec2) -> (r: Vec2)
    ensures
        r == spec_wrap_position(pos, bounds),
        bounds.x >= 0 && bounds.y >= 0 ==> !r.outside(bounds),
{
    Vec2 { x: wrap_coord(pos.x, bounds.x), y: wrap_coord(pos.y, bounds.y) }
}

/// Two discs overlap when their centres are closer than the sum of their
/// radii; touching does not count.
pub open spec fn spec_overlap(pa: Vec2, sa: i64, pb: Vec2, sb: i64) -> bool {
    sa + sb > 0 && pa.dist2(pb) < (sa + sb) * (sa + sb)
}

proof fn lemma_square_monotone(a: int, b: int)
    requires
        0 <= a <= b,
    ensures
        a * a <= b * b,
        a < b ==> a * a < b * b,
{
    assert(a * a <= b * b) by (nonlinear_arith)
        requires
            0 <= a <= b,
    ;
    assert(a < b ==> a * a < b * b) by (nonlinear_arith)
        requires
            0 <= a <= b,
    ;
}

proof fn lemma_square_abs(d: int, m: int)
    requires
        m == if d >= 0 { d } else { -d },
    ensures
        m * m == d * d,
{
    assert(m * m == d * d) by (nonlinear_arith)
        requires
            m == d || m == -d,
    ;
}

fn gap(a: i64, b: i64) -> (m: u128)
    ensures
        m == if a - b >= 0 { a - b } else { b - a },
        m <= 0xffff_ffff_ffff_ffff,
{
    let d: i128 = a as i128 - b as i128;
    if d >= 0 {
        d as u128
    } else {
        (-d) as u128
    }
}

fn square(m: u128) -> (s: u128)
    requires
        m <= 0xffff_ffff_ffff_ffff,
    ensures
        s == m * m,
        s <= 0xffff_ffff_ffff_fffe_0000_0000_0000_0001,
{
    proof {
        lemma_square_monotone(m as int, 0xffff_ffff_ffff_ffff);
        assert(0xffff_ffff_ffff_ffffint * 0xffff_ffff_ffff_ffffint
            == 0xffff_ffff_ffff_fffe_0000_0000_0000_0001int) by (nonlinear_arith);
    }
    m * m
}

#[verifier::when_used_as_spec(spec_overlap)]
pub fn overlap(pa: Vec2, sa: i64, pb: Vec2, sb: i64) -> (hit: bool)
    ensures
        hit == spec_overlap(pa, sa, pb, sb),
{
    let reach: i128 = sa as i128 + sb as i128;
    if reach <= 0 {
        return false;
    }
    let r: u128 = reach as u128;
    let dx: u128 = gap(pa.x, pb.x);
    let dy: u128 = gap(pa.y, pb.y);
    proof {
        lemma_square_abs(pa.x - pb.x, dx as int);
        lemma_square_abs(pa.y - pb.y, dy as int);
        if dx >= r {
            lemma_square_monotone(r as int, dx as int);
        }
        if dy >= r {
            lemma_square_monotone(r as int, dy as int);
        }
        assert(dx as int * dx as int >= 0) by (nonlinear_arith);
        assert(dy as int * dy as int >= 0) by (nonlinear_arith);
    }
    if dx >= r || dy >= r {
        return false;
    }
    proof {
        lemma_square_monotone(dy as int, r as int);
    }
    let rr: u128 = square(r);
    let xx: u128 = square(dx);
    let yy: u128 = square(dy);
    xx < rr - yy
}

/// Whether `a` lies strictly nearer to `from` than `b` does.
pub open spec fn spec_nearer(from: Vec2, a: Vec2, b: Vec2) -> bool {
    from.dist2(a) < from.dist2(b)
}

/// `x * x + y * y` in two words: whether it reached 2^128, and the rest.
fn square_sum(x: u128, y: u128) -> (r: (bool, u128))
    requires
        x <= 0xffff_ffff_ffff_ffff,
        y <= 0xffff_ffff_ffff_ffff,
    ensures
        x * x + y * y == (if r.0 { 0x1_0000_0000_0000_0000_0000_0000_0000_0000int } else { 0int })
            + r.1,
{
    let xx: u128 = square(x);
    let yy: u128 = square(y);
    let room: u128 = u128::MAX - yy;
    if xx > room {
        (true, xx - room - 1)
    } else {
        (false, xx + yy)
    }
}

#[verifier::when_used_as_spec(spec_nearer)]
pub fn nearer(from: Vec2, a: Vec2, b: Vec2) -> (r: bool)
    ensures
        r == spec_nearer(from, a, b),
{
    let ax: u128 = gap(from.x, a.x);
    let ay: u128 = gap(from.y, a.y);
    let bx: u128 = gap(from.x, b.x);
    let by: u128 = gap(from.y, b.y);
    proof {
        lemma_square_abs(from.x - a.x, ax as int);
        lemma_square_abs(from.y - a.y, ay as int);
        lemma_square_abs(from.x - b.x, bx as int);
        lemma_square_abs(from.y - b.y, by as int);
    }
    let da = square_sum(ax, ay);
    let db = square_sum(bx, by);
    if da.0 == db.0 {
        da.1 < db.1
    } else {
        db.0
    }
}

/// Overlap does not depend on which disc is named first.
pub proof fn lemma_overlap_symmetric(pa: Vec2, sa: i64, pb: Vec2, sb: i64)
    ensures
        spec_overlap(pa, sa, pb, sb) == spec_overlap(pb, sb, pa, sa),
{
    assert((pa.x - pb.x) * (pa.x - pb.x) == (pb.x - pa.x) * (pb.x - pa.x)) by (nonlinear_arith);
    assert((pa.y - pb.y) * (pa.y - pb.y) == (pb.y - pa.y) * (pb.y - pa.y)) by (nonlinear_arith);
    assert((sa + sb) * (sa + sb) == (sb + sa) * (sb + sa)) by (nonlinear_arith);
}

} // verus!
