//! Walking the cells of a board in reading order, cell by cell or row by row.
use vstd::prelude::*;

use crate::position::Position;

verus! {

/// The `k`-th cell, counting from zero, of a board `w` columns wide in reading order.
pub open spec fn cell_at(w: int, k: int) -> Position
    recommends
        w > 0,
{
    Position((k % w + 1) as u8, (k / w + 1) as u8)
}

/// Row `row`, counting from zero, of a board `w` columns wide, left to right.
pub open spec fn row_at(w: int, row: int) -> Seq<Position> {
    Seq::new(w as nat, |i: int| Position((i + 1) as u8, (row + 1) as u8))
}

/// Hands out the cells of a board `w` columns wide and `h` rows tall in
/// reading order, then nothing.
pub struct PositionGenerator {
    limits: (u8, u8),
    current: Position,
}

impl PositionGenerator {
    /// The number of columns walked.
    pub closed spec fn columns(&self) -> int {
        self.limits.0 as int
    }

    /// The number of rows walked.
    pub closed spec fn rows(&self) -> int {
        self.limits.1 as int
    }

    /// How many cells have been handed out so far.
    pub closed spec fn produced(&self) -> int {
        (self.current.1 - 1) * self.limits.0 + self.current.0
    }

    /// The cursor stands on a cell of the board, or before its first cell.
    pub closed spec fn wf(&self) -> bool {
        let (w, h) = self.limits;
        let Position(x, y) = self.current;
        &&& 1 <= y
        &&& x <= w
        &&& x == 0 ==> y == 1
        &&& y <= h || (x == 0 && h == 0)
    }

    /// A walk over a board `w` columns wide and `h` rows tall.
    pub fn new(w: u8, h: u8) -> (r: PositionGenerator)
        ensures
            r.wf(),
            r.columns() == w,
            r.rows() == h,
            r.produced() == 0,
    {
        PositionGenerator { limits: (w, h), current: Position(0, 1) }
    }

    /// The next cell in reading order, or `None` once every cell was handed out.
    pub fn next(&mut self) -> (r: Option<Position>)
        requires
            old(self).wf(),
        ensures
            final(self).wf(),
            final(self).columns() == old(self).columns(),
            final(self).rows() == old(self).rows(),
            0 <= old(self).produced() <= old(self).columns() * old(self).rows(),
            old(self).produced() < old(self).columns() * old(self).rows() ==> {
                &&& r == Some(cell_at(old(self).columns(), old(self).produced()))
                &&& final(self).produced() == old(self).produced() + 1
            },
            old(self).produced() == old(self).columns() * old(self).rows() ==> {
                &&& r is None
                &&& final(self).produced() == old(self).produced()
            },
    {
        let Position(x, y) = self.current;
        let (w, h) = self.limits;
        let ghost k = (y - 1) * w + x;
        proof {
            lemma_produced_bounds(x as int, y as int, w as int, h as int);
        }
        if x < w && y <= h {
            self.current = Position(x + 1, y);
            proof {
                lemma_cell_at(w as int, (y - 1) as int, x as int);
                assert(k < w * h) by (nonlinear_arith)
                    requires k == (y - 1) * w + x, x < w, 1 <= y <= h;
            }
            Some(self.current)
        } else if x == w && y < h && w > 0 {
            self.current = Position(1, y + 1);
            proof {
                lemma_cell_at(w as int, y as int, 0);
                assert(k == y * w) by (nonlinear_arith) requires k == (y - 1) * w + x, x == w;
                assert(k < w * h) by (nonlinear_arith) requires k == y * w, w > 0, y < h;
            }
            Some(self.current)
        } else {
            proof {
                if w > 0 && h > 0 {
                    assert(k == w * h) by (nonlinear_arith)
                        requires k == (y - 1) * w + x, x == w, 1 <= y, y == h;
                } else {
                    assert(w * h == 0) by (nonlinear_arith) requires w == 0 || h == 0;
                    assert(k == 0) by (nonlinear_arith)
                        requires k == (y - 1) * w + x, x == 0, y == 1;
                }
            }
            None
        }
    }
}

/// Hands out the rows of a board, top to bottom, each as its cells from left to right.
pub struct ByRow {
    generator: PositionGenerator,
}

impl ByRow {
    /// The number of columns walked.
    pub closed spec fn columns(&self) -> int {
        self.generator.columns()
    }

    /// The number of rows walked.
    pub closed spec fn rows(&self) -> int {
        self.generator.rows()
    }

    /// How many rows have been handed out so far.
    pub closed spec fn produced(&self) -> int {
        if self.columns() == 0 { 0 } else { self.generator.produced() / self.columns() }
    }

    /// The cell walk underneath stands at the end of a whole row.
    pub closed spec fn wf(&self) -> bool {
        &&& self.generator.wf()
        &&& 0 <= self.generator.produced()
        &&& self.columns() == 0 ==> self.generator.produced() == 0
        &&& self.columns() > 0 ==> self.generator.produced() == self.produced() * self.columns()
    }

    /// A walk over the rows of a board `w` columns wide and `h` rows tall.
    pub fn new(w: u8, h: u8) -> (r: ByRow)
        ensures
            r.wf(),
            r.columns() == w,
            r.rows() == h,
            r.produced() == 0,
    {
        ByRow { generator: PositionGenerator::new(w, h) }
    }

    /// The next row, or `None` once every row was handed out. A board with no
    /// columns has no rows to hand out.
    pub fn next(&mut self) -> (r: Option<Vec<Position>>)
        requires
            old(self).wf(),
        ensures
            final(self).wf(),
            final(self).columns() == old(self).columns(),
            final(self).rows() == old(self).rows(),
            old(self).columns() > 0 && old(self).produced() < old(self).rows() ==> {
                &&& r matches Some(row) && row@ == row_at(old(self).columns(), old(self).produced())
                &&& final(self).produced() == old(self).produced() + 1
            },
            old(self).columns() == 0 || old(self).produced() >= old(self).rows() ==> {
                &&& r is None
                &&& final(self).produced() == old(self).produced()
            },
    {
        let mut collector: Vec<Position> = Vec::new();
        let w = self.generator.limits.0;
        let ghost row = self.produced();
        let ghost w0 = w as int;
        let ghost h0 = self.rows();
        proof {
            let Position(x, y) = self.generator.current;
            lemma_produced_bounds(x as int, y as int, w0, h0);
            if w0 > 0 {
                assert(row >= 0) by (nonlinear_arith)
                    requires row * w0 >= 0, w0 > 0;
                lemma_row_start(w0, h0, row);
            } else {
                assert(w0 * h0 == 0) by (nonlinear_arith) requires w0 == 0;
            }
        }
        loop
            invariant
                self.generator.wf(),
                self.columns() == w0,
                self.rows() == h0,
                w0 == w,
                w0 == old(self).columns(),
                h0 == old(self).rows(),
                row == old(self).produced(),
                row >= 0,
                w0 > 0 ==> (row * w0) / w0 == row,
                0 <= collector@.len() < w0 || (w0 == 0 && collector@.len() == 0),
                self.generator.produced() == row * w0 + collector@.len(),
                collector@ == row_at(w0, row).take(collector@.len() as int),
                w0 > 0 && row < h0 ==> row * w0 + w0 <= w0 * h0,
                w0 > 0 && row >= h0 ==> row * w0 == w0 * h0 && collector@.len() == 0,
                w0 == 0 ==> row == 0,
            decreases w0 * h0 - self.generator.produced(),
        {
            match self.generator.next() {
                Some(position) => {
                    let ghost i = collector@.len() as int;
                    proof {
                        lemma_cell_at(w0, row, i);
                    }
                    collector.push(position);
                    assert(collector@ =~= row_at(w0, row).take(i + 1));
                    if position.0 == w {
                        assert(collector@ =~= row_at(w0, row));
                        proof {
                            assert(self.generator.produced() == (row + 1) * w0) by (nonlinear_arith)
                                requires self.generator.produced() == row * w0 + i + 1, i + 1 == w0;
                            vstd::arithmetic::div_mod::lemma_fundamental_div_mod_converse(
                                self.generator.produced(), w0, row + 1, 0);
                        }
                        return Some(collector);
                    }
                },
                None => {
                    return None;
                },
            }
        }
    }
}

proof fn lemma_row_start(w: int, h: int, row: int)
    requires
        w > 0,
        row >= 0,
    ensures
        row * w >= 0,
        (row * w) / w == row,
        row < h ==> row * w + w <= w * h,
        row >= h ==> row * w >= w * h,
{
    lemma_cell_at(w, row, 0);
    if row < h {
        assert(row * w + w <= w * h) by (nonlinear_arith) requires row < h, w > 0;
    } else {
        assert(row * w >= w * h) by (nonlinear_arith) requires row >= h, w > 0;
    }
}

proof fn lemma_produced_bounds(x: int, y: int, w: int, h: int)
    requires
        1 <= y,
        0 <= x <= w,
        x == 0 ==> y == 1,
        y <= h || (x == 0 && h == 0),
    ensures
        0 <= (y - 1) * w + x <= w * h,
{
    if h > 0 {
        assert((y - 1) * w <= (h - 1) * w) by (nonlinear_arith)
            requires y <= h, w >= 0, y >= 1;
        assert((h - 1) * w + w == w * h) by (nonlinear_arith);
        assert((y - 1) * w >= 0) by (nonlinear_arith) requires y >= 1, w >= 0;
    }
}

proof fn lemma_cell_at(w: int, q: int, r: int)
    requires
        0 <= r < w,
        0 <= q,
    ensures
        q * w + r >= 0,
        (q * w + r) % w == r,
        (q * w + r) / w == q,
{
    assert(q * w >= 0) by (nonlinear_arith) requires q >= 0, w >= 0;
    vstd::arithmetic::div_mod::lemma_fundamental_div_mod_converse(q * w + r, w, q, r);
}

} // verus!
