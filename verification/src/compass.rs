//! Trigonometry by table. The library never computes a sine: the host fills
//! a table with the headings of evenly spaced angles over one turn, and the
//! simulation reads directions from it and finds bearings in it.
use vstd::prelude::*;
use crate::fixed::{trunc_div, trunc_rem, PI, TAU, UNIT};
use crate::geometry::{Heading, Vec2};

verus! {

/// A table of headings; entry `i` of `n` is the heading of the angle
/// `i * TAU / n`.
pub struct Compass {
    pub table: Vec<Heading>,
}

/// Everything the simulation reads from its surroundings: the size of the
/// screen, the direction table, and the names of the asteroid textures that
/// were loaded.
pub struct Environment {
    pub bounds: Vec2,
    pub compass: Compass,
    pub asteroid_textures: Vec<String>,
}

/// Whether neither component of `h` exceeds one whole in magnitude.
pub open spec fn heading_in_range(h: Heading) -> bool {
    -UNIT <= h.cos <= UNIT && -UNIT <= h.sin <= UNIT
}

/// `angle` reduced to `[0, TAU)`.
pub open spec fn normalized(angle: i64) -> int {
    let r = trunc_rem(angle as int, TAU as int);
    if r < 0 {
        r + TAU
    } else {
        r
    }
}

/// How well the screen direction of `h` agrees with the offset `(dx, dy)`;
/// on screen a heading points to `(cos, -sin)`.
pub open spec fn alignment(h: Heading, dx: i64, dy: i64) -> int {
    h.cos * dx - h.sin * dy
}

impl Compass {
    pub open spec fn wf(&self) -> bool {
        &&& 0 < self.table@.len() <= 0x100_0000
        &&& forall|i: int| 0 <= i < self.table@.len() ==> heading_in_range(#[trigger] self.table@[i])
    }

    /// Accepts a table that is not empty, holds at most 2^24 entries, and
    /// whose entries are all in range.
    pub fn new(table: Vec<Heading>) -> (r: Option<Compass>)
        ensures
            r.is_some() == (Compass { table }).wf(),
            r.is_some() ==> r.unwrap() == (Compass { table }),
    {
        if table.len() == 0 || table.len() > 0x100_0000 {
            return None;
        }
        let mut i: usize = 0;
        while i < table.len()
            invariant
                0 <= i <= table.len(),
                forall|k: int| 0 <= k < i ==> heading_in_range(#[trigger] table@[k]),
            decreases table.len() - i,
        {
            let h: Heading = table[i];
            if h.cos < -UNIT || h.cos > UNIT || h.sin < -UNIT || h.sin > UNIT {
                return None;
            }
            i = i + 1;
        }
        Some(Compass { table })
    }

    /// The table entry that serves `angle`.
    pub open spec fn slot(&self, angle: i64) -> int {
        normalized(angle) * self.table@.len() / (TAU as int)
    }

    /// The angle that table entry `i` stands for, in `(-PI, PI]`.
    pub open spec fn slot_angle(&self, i: int) -> int {
        let a = i * TAU / (self.table@.len() as int);
        if a > PI {
            a - TAU
        } else {
            a
        }
    }

    pub open spec fn spec_heading(&self, angle: i64) -> Heading {
        self.table@[self.slot(angle)]
    }

    /// Cosine and sine of `angle`, as the table has them.
    #[verifier::when_used_as_spec(spec_heading)]
    pub fn heading(&self, angle: i64) -> (h: Heading)
        requires
            self.wf(),
        ensures
            h == self.spec_heading(angle),
            heading_in_range(h),
    {
        let q: i64 = angle / TAU;
        assert(-TAU < angle - TAU * q < TAU && -0x8000_0000_0000_0000 <= TAU * q
            <= 0x7fff_ffff_ffff_ffff) by (nonlinear_arith)
            requires
                q == trunc_div(angle as int, TAU as int),
                TAU == 3_769_912,
                -0x8000_0000_0000_0000 <= angle <= 0x7fff_ffff_ffff_ffff,
        ;
        let r: i64 = angle - TAU * q;
        let n: u64 = if r < 0 { (r + TAU) as u64 } else { r as u64 };
        let len: u64 = self.table.len() as u64;
        assert(n * len <= TAU * len - len && TAU * len <= 0x100_0000 * TAU) by (nonlinear_arith)
            requires
                0 <= n < TAU,
                0 < len <= 0x100_0000,
        ;
        let i: u64 = n * len / (TAU as u64);
        assert(i < len) by (nonlinear_arith)
            requires
                i == (n * len) / (TAU as int),
                n * len <= TAU * len - len,
                0 < len,
                TAU == 3_769_912,
        ;
        self.table[i as usize]
    }

    /// Whether entry `i` agrees best with the offset `(dx, dy)`, the first of
    /// the entries that agree equally well.
    pub open spec fn is_best_slot(&self, dx: i64, dy: i64, i: int) -> bool {
        &&& 0 <= i < self.table@.len()
        &&& forall|k: int|
            0 <= k < self.table@.len() ==> alignment(#[trigger] self.table@[k], dx, dy)
                <= alignment(self.table@[i], dx, dy)
        &&& forall|k: int|
            0 <= k < i ==> alignment(#[trigger] self.table@[k], dx, dy) < alignment(
                self.table@[i],
                dx,
                dy,
            )
    }

    /// The angle whose screen direction points along the offset `(dx, dy)`
    /// as nearly as the table allows.
    pub fn bearing(&self, dx: i64, dy: i64) -> (angle: i64)
        requires
            self.wf(),
        ensures
            exists|i: int| self.is_best_slot(dx, dy, i) && angle == #[trigger] self.slot_angle(i),
            -PI < angle <= PI,
    {
        let mut best: usize = 0;
        let mut best_score: i128 = Self::score(self.table[0], dx, dy);
        let mut i: usize = 1;
        while i < self.table.len()
            invariant
                self.wf(),
                1 <= i <= self.table@.len(),
                best < i,
                best_score == alignment(self.table@[best as int], dx, dy),
                forall|k: int|
                    0 <= k < i ==> alignment(#[trigger] self.table@[k], dx, dy) <= best_score,
                forall|k: int|
                    0 <= k < best ==> alignment(#[trigger] self.table@[k], dx, dy) < best_score,
            decreases self.table.len() - i,
        {
            let s: i128 = Self::score(self.table[i], dx, dy);
            if s > best_score {
                best = i;
                best_score = s;
            }
            i = i + 1;
        }
        let len: u64 = self.table.len() as u64;
        let b: u64 = best as u64;
        assert(b * TAU <= len * TAU - TAU && len * TAU <= 0x100_0000 * TAU) by (nonlinear_arith)
            requires
                0 <= b < len,
                len <= 0x100_0000,
                TAU == 3_769_912,
        ;
        let a: u64 = b * (TAU as u64) / len;
        assert(a < TAU) by (nonlinear_arith)
            requires
                a == (b * TAU) / (len as int),
                b * TAU <= len * TAU - TAU,
                0 < len,
                TAU == 3_769_912,
        ;
        let angle: i64 = if a > PI as u64 {
            a as i64 - TAU
        } else {
            a as i64
        };
        assert(self.is_best_slot(dx, dy, best as int));
        assert(a == (best as int) * TAU / (self.table@.len() as int));
        assert(angle == self.slot_angle(best as int));
        angle
    }

    fn score(h: Heading, dx: i64, dy: i64) -> (s: i128)
        requires
            heading_in_range(h),
        ensures
            s == alignment(h, dx, dy),
    {
        assert(-0x8000_0000_0000_0000 * UNIT <= h.cos * dx <= 0x8000_0000_0000_0000 * UNIT
            && -0x8000_0000_0000_0000 * UNIT <= h.sin * dy <= 0x8000_0000_0000_0000 * UNIT)
            by (nonlinear_arith)
            requires
                -UNIT <= h.cos <= UNIT,
                -UNIT <= h.sin <= UNIT,
                UNIT == 600_000,
                -0x8000_0000_0000_0000 <= dx <= 0x7fff_ffff_ffff_ffff,
                -0x8000_0000_0000_0000 <= dy <= 0x7fff_ffff_ffff_ffff,
        ;
        (h.cos as i128) * (dx as i128) - (h.sin as i128) * (dy as i128)
    }
}

impl Environment {
    /// The screen has a non-negative size, the compass is usable, and either
    /// no asteroid texture was loaded or exactly the three variants.
    pub open spec fn wf(&self) -> bool {
        &&& self.bounds.x >= 0
        &&& self.bounds.y >= 0
        &&& self.compass.wf()
        &&& (self.asteroid_textures@.len() == 0 || self.asteroid_textures@.len() == 3)
    }

    /// The surroundings with a screen of size `bounds`, the direction table
    /// `table` and the loaded asteroid textures `asteroid_textures`, if
    /// they are well formed.
    pub fn new(bounds: Vec2, table: Vec<Heading>, asteroid_textures: Vec<String>) -> (r: Option<
        Environment,
    >)
        ensures
            r.is_some() == (Environment {
                bounds,
                compass: Compass { table },
                asteroid_textures,
            }).wf(),
            r.is_some() ==> r.unwrap() == (Environment {
                bounds,
                compass: Compass { table },
                asteroid_textures,
            }),
    {
        if bounds.x < 0 || bounds.y < 0 {
            return None;
        }
        if !(asteroid_textures.len() == 0 || asteroid_textures.len() == 3) {
            return None;
        }
        match Compass::new(table) {
            Some(compass) => Some(Environment { bounds, compass, asteroid_textures }),
            None => None,
        }
    }

    /// Whether the screen may have the size `bounds`.
    pub fn fits_screen(bounds: Vec2) -> (r: bool)
        ensures
            r == (bounds.x >= 0 && bounds.y >= 0),
    {
        bounds.x >= 0 && bounds.y >= 0
    }
}

} // verus!
