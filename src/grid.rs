//! The occupancy grid: a bounds-checked map from cells to objects.
use vstd::prelude::*;

use crate::position::Position;
use crate::walk::{row_at, ByRow};

verus! {

/// What a cell can hold.
#[derive(Clone, Copy, Debug, PartialEq, Eq, Structural)]
pub enum Object {
    Snake,
    Apple,
    /// A sentinel that marks a cell as free: writing over it is no collision.
    Empty,
    Wall,
}

/// How an object is drawn on a text board.
pub open spec fn glyph_of(o: Object) -> char {
    match o {
        Object::Snake => '*',
        Object::Apple => 'O',
        Object::Empty => '.',
        Object::Wall => '#',
    }
}

impl Object {
    /// The character this object is drawn with.
    pub fn glyph(&self) -> (r: char)
        ensures
            r == glyph_of(*self),
    {
        match self {
            Object::Snake => '*',
            Object::Apple => 'O',
            Object::Empty => '.',
            Object::Wall => '#',
        }
    }
}

/// The report of a grid mutation, and of the rule table built on top of it.
#[derive(Clone, Copy, Debug, PartialEq, Eq, Structural)]
pub enum AllocationEvent {
    /// The object was stored in a free cell.
    Allocated,
    /// The object was stored, displacing the object carried here.
    Collition(Object),
    /// The mover ran into something fatal.
    Crash,
    /// The mover ate what it ran into.
    Yum,
    /// No rule covers the two objects that met.
    CollitionRuleMissing,
    /// The target cell lies outside the grid; nothing changed.
    OutOfBounds,
    /// There was nothing to move; nothing changed.
    EmptySpace,
}

/// The mathematical model of a grid: its fixed extent and the occupied cells.
pub struct Board {
    pub width: u8,
    pub height: u8,
    pub cells: Map<Position, Object>,
}

impl Board {
    /// `p` lies in `[1, width] × [1, height]`.
    pub open spec fn contains(self, p: Position) -> bool {
        1 <= p.0 <= self.width && 1 <= p.1 <= self.height
    }

    /// Both extents are at least one, and only cells inside the extent are occupied.
    pub open spec fn wf(self) -> bool {
        &&& self.width >= 1
        &&& self.height >= 1
        &&& forall|p: Position| #[trigger] self.cells.contains_key(p) ==> self.contains(p)
    }

    /// What a bounds-checked read of `p` gives.
    pub open spec fn lookup(self, p: Position) -> Option<Object> {
        if self.contains(p) && self.cells.contains_key(p) {
            Some(self.cells[p])
        } else {
            None
        }
    }

    /// `p` holds an object other than the `Empty` sentinel.
    pub open spec fn occupied(self, p: Position) -> bool {
        self.cells.contains_key(p) && self.cells[p] != Object::Empty
    }

    /// The event that placing `o` at `p` reports.
    pub open spec fn allocation(self, p: Position, o: Object) -> AllocationEvent {
        if !self.contains(p) {
            AllocationEvent::OutOfBounds
        } else if self.occupied(p) {
            AllocationEvent::Collition(self.cells[p])
        } else {
            AllocationEvent::Allocated
        }
    }

    /// The board after placing `o` at `p`: written whenever `p` is inside.
    pub open spec fn allocate(self, p: Position, o: Object) -> Board {
        if self.contains(p) {
            Board { cells: self.cells.insert(p, o), ..self }
        } else {
            self
        }
    }

    /// The board after clearing `p`.
    pub open spec fn free(self, p: Position) -> Board {
        Board { cells: self.cells.remove(p), ..self }
    }

    /// The event that moving the object at `from` to `to` reports: a cell
    /// that is not `occupied` has nothing to move.
    pub open spec fn movement(self, from: Position, to: Position) -> AllocationEvent {
        if !self.occupied(from) {
            AllocationEvent::EmptySpace
        } else if !self.contains(to) {
            AllocationEvent::OutOfBounds
        } else {
            self.free(from).allocation(to, self.cells[from])
        }
    }

    /// The board after moving the object at `from` to `to`.
    pub open spec fn relocate(self, from: Position, to: Position) -> Board {
        if !self.occupied(from) || !self.contains(to) {
            self
        } else {
            self.free(from).allocate(to, self.cells[from])
        }
    }

    /// How the cell `p` is drawn: a free cell looks like the `Empty` sentinel.
    pub open spec fn glyph_at(self, p: Position) -> char {
        match self.lookup(p) {
            Some(o) => glyph_of(o),
            None => glyph_of(Object::Empty),
        }
    }

    /// The board drawn as text, one line per row from the top, each line
    /// from left to right.
    pub open spec fn picture(self) -> Seq<Seq<char>> {
        Seq::new(
            self.height as nat,
            |j: int|
                Seq::new(
                    self.width as nat,
                    |i: int| self.glyph_at(Position((i + 1) as u8, (j + 1) as u8)),
                ),
        )
    }

    /// The middle cell, rounding each coordinate down.
    pub open spec fn center(self) -> Position {
        Position(self.width / 2, self.height / 2)
    }
}

/// A board of fixed extent holding at most one object per cell.
pub struct Grid {
    source: std::collections::BTreeMap<(u8, u8), Object>,
    width: u8,
    height: u8,
}

impl View for Grid {
    type V = Board;

    closed spec fn view(&self) -> Board {
        Board {
            width: self.width,
            height: self.height,
            cells: Map::new(
                |p: Position| self.source@.contains_key((p.0, p.1)),
                |p: Position| self.source@[(p.0, p.1)],
            ),
        }
    }
}

/// Whether `position` lies inside the grid's extent.
pub fn in_bound(grid: &Grid, position: &Position) -> (r: bool)
    ensures
        r == grid@.contains(*position),
{
    let Position(x, y) = *position;
    !(x > grid.width || y > grid.height || x < 1 || y < 1)
}

impl Grid {
    /// The grid's model is well formed: see `Board::wf`.
    pub open spec fn wf(&self) -> bool {
        self@.wf()
    }

    /// An empty grid of `w` columns and `h` rows.
    pub fn new(w: u8, h: u8) -> (r: Grid)
        requires
            w >= 1,
            h >= 1,
        ensures
            r.wf(),
            r@.width == w,
            r@.height == h,
            r@.cells == Map::<Position, Object>::empty(),
    {
        let r = Grid { source: std::collections::BTreeMap::new(), width: w, height: h };
        assert(r@.cells =~= Map::<Position, Object>::empty());
        r
    }

    /// The middle cell of the grid, rounding each coordinate down.
    pub fn center(&self) -> (r: Position)
        ensures
            r == self@.center(),
    {
        Position(self.width / 2, self.height / 2)
    }

    /// Stores `object` at `position`. Outside the grid nothing changes and
    /// `OutOfBounds` comes back. Inside, the write always happens; it reports
    /// `Collition` with the displaced object when the cell held anything but
    /// the `Empty` sentinel, and `Allocated` otherwise.
    pub fn allocate_at(&mut self, position: Position, object: Object) -> (r: AllocationEvent)
        requires
            old(self).wf(),
        ensures
            final(self).wf(),
            r == old(self)@.allocation(position, object),
            final(self)@ == old(self)@.allocate(position, object),
    {
        if !in_bound(self, &position) {
            return AllocationEvent::OutOfBounds;
        }
        let previous = self.source.insert((position.0, position.1), object);
        assert(self@.cells =~= old(self)@.cells.insert(position, object));
        match previous {
            Some(existent) => {
                if existent == Object::Empty {
                    AllocationEvent::Allocated
                } else {
                    AllocationEvent::Collition(existent)
                }
            },
            None => AllocationEvent::Allocated,
        }
    }

    /// `allocate_at` with its arguments the other way round.
    pub fn allocate_object_at(&mut self, object: Object, position: Position) -> (r: AllocationEvent)
        requires
            old(self).wf(),
        ensures
            final(self).wf(),
            r == old(self)@.allocation(position, object),
            final(self)@ == old(self)@.allocate(position, object),
    {
        self.allocate_at(position, object)
    }

    /// Clears `position`; a cell outside the grid is left alone.
    pub fn free(&mut self, position: &Position)
        requires
            old(self).wf(),
        ensures
            final(self).wf(),
            final(self)@ == old(self)@.free(*position),
    {
        if in_bound(self, position) {
            self.source.remove(&(position.0, position.1));
        }
        assert(self@.cells =~= old(self)@.cells.remove(*position));
    }

    /// Takes the object at `from` and stores it at `to`. With nothing at
    /// `from`, or only the `Empty` sentinel, this reports `EmptySpace`, and with `to` outside the grid
    /// `OutOfBounds`; both leave the grid as it was. Otherwise `from` is
    /// cleared first and the object is placed as `allocate_at` does.
    pub fn move_object(&mut self, from: Position, to: Position) -> (r: AllocationEvent)
        requires
            old(self).wf(),
        ensures
            final(self).wf(),
            r == old(self)@.movement(from, to),
            final(self)@ == old(self)@.relocate(from, to),
    {
        let occupied = match self.source.get(&(from.0, from.1)) {
            Some(object) => *object != Object::Empty,
            None => false,
        };
        if !occupied {
            return AllocationEvent::EmptySpace;
        }
        if !in_bound(self, &to) {
            return AllocationEvent::OutOfBounds;
        }
        match self.source.remove(&(from.0, from.1)) {
            Some(object) => {
                assert(self@.cells =~= old(self)@.cells.remove(from));
                self.allocate_at(to, object)
            },
            None => AllocationEvent::EmptySpace,
        }
    }

    /// The number of columns.
    pub fn width(&self) -> (r: u8)
        ensures
            r == self@.width,
    {
        self.width
    }

    /// The number of rows.
    pub fn height(&self) -> (r: u8)
        ensures
            r == self@.height,
    {
        self.height
    }

    /// The board drawn as text: one line of glyphs per row, top to bottom.
    pub fn render(&self) -> (r: Vec<Vec<char>>)
        requires
            self.wf(),
        ensures
            r@.len() == self@.picture().len(),
            forall|j: int| 0 <= j < r@.len() ==> #[trigger] r@[j]@ == self@.picture()[j],
    {
        let mut rows = ByRow::new(self.width, self.height);
        let mut out: Vec<Vec<char>> = Vec::new();
        loop
            invariant
                self.wf(),
                rows.wf(),
                rows.columns() == self.width,
                rows.rows() == self.height,
                rows.produced() == out@.len(),
                out@.len() <= self.height,
                forall|j: int| 0 <= j < out@.len() ==> #[trigger] out@[j]@ == self@.picture()[j],
            decreases self.height - rows.produced(),
        {
            match rows.next() {
                Some(row) => {
                    let ghost j = out@.len() as int;
                    let mut line: Vec<char> = Vec::new();
                    let mut i: usize = 0;
                    while i < row.len()
                        invariant
                            self.wf(),
                            row@ == row_at(self.width as int, j),
                            0 <= j < self.height,
                            i <= row@.len(),
                            line@ == self@.picture()[j].take(i as int),
                        decreases row.len() - i,
                    {
                        let glyph = match self.object_at(row[i]) {
                            Some(o) => o.glyph(),
                            None => Object::Empty.glyph(),
                        };
                        line.push(glyph);
                        assert(line@ =~= self@.picture()[j].take(i + 1));
                        i = i + 1;
                    }
                    assert(line@ =~= self@.picture()[j]);
                    out.push(line);
                },
                None => {
                    return out;
                },
            }
        }
    }

    /// The object at `position`; nothing for a free cell or one outside the grid.
    pub fn object_at(&self, position: Position) -> (r: Option<&Object>)
        requires
            self.wf(),
        ensures
            match r {
                Some(o) => self@.lookup(position) == Some(*o),
                None => self@.lookup(position) is None,
            },
    {
        if in_bound(self, &position) {
            self.source.get(&(position.0, position.1))
        } else {
            None
        }
    }
}

} // verus!
