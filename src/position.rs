//! Board coordinates, their reading order, and single-cell steps.
use vstd::prelude::*;

verus! {

/// A cell coordinate `(x, y)`: `x` grows to the right, `y` grows downwards,
/// and the board interior starts at `(1, 1)` in the top left corner.
#[derive(Clone, Copy, Debug, PartialEq, Eq, Structural)]
pub struct Position(pub u8, pub u8);

/// `a` comes strictly before `b` in reading order: by row, then by column.
pub open spec fn precedes(a: Position, b: Position) -> bool {
    a.1 < b.1 || (a.1 == b.1 && a.0 < b.0)
}

/// The ordering of two positions in reading order.
pub open spec fn reading_order(a: Position, b: Position) -> core::cmp::Ordering {
    if a == b {
        core::cmp::Ordering::Equal
    } else if precedes(a, b) {
        core::cmp::Ordering::Less
    } else {
        core::cmp::Ordering::Greater
    }
}

impl PartialOrd for Position {
    fn partial_cmp(&self, other: &Position) -> (r: Option<core::cmp::Ordering>)
        ensures
            r == Some(reading_order(*self, *other)),
    {
        if self.0 == other.0 && self.1 == other.1 {
            Some(core::cmp::Ordering::Equal)
        } else if self.1 < other.1 || (self.1 == other.1 && self.0 < other.0) {
            Some(core::cmp::Ordering::Less)
        } else {
            Some(core::cmp::Ordering::Greater)
        }
    }
}

impl vstd::std_specs::cmp::PartialOrdSpecImpl for Position {
    open spec fn obeys_partial_cmp_spec() -> bool {
        true
    }

    open spec fn partial_cmp_spec(&self, other: &Position) -> Option<core::cmp::Ordering> {
        Some(reading_order(*self, *other))
    }
}

/// A heading on the board.
#[derive(Clone, Copy, Debug, PartialEq, Eq, Structural)]
pub enum Direction {
    Up,
    Down,
    Left,
    Right,
}

/// The coordinates one step from `p` towards `d`, as unbounded integers.
pub open spec fn step(p: Position, d: Direction) -> (int, int) {
    match d {
        Direction::Up => (p.0 as int, p.1 - 1),
        Direction::Down => (p.0 as int, p.1 + 1),
        Direction::Left => (p.0 - 1, p.1 as int),
        Direction::Right => (p.0 + 1, p.1 as int),
    }
}

/// Whether a pair of integers can be held as a `Position`.
pub open spec fn representable(c: (int, int)) -> bool {
    0 <= c.0 <= u8::MAX && 0 <= c.1 <= u8::MAX
}

/// Two positions are neighbours: they differ by one in exactly one coordinate.
pub open spec fn adjacent(a: Position, b: Position) -> bool {
    (a.0 == b.0 && (a.1 + 1 == b.1 || b.1 + 1 == a.1))
    || (a.1 == b.1 && (a.0 + 1 == b.0 || b.0 + 1 == a.0))
}

/// The cell one step from `position` towards `direction`: up lowers `y`, down
/// raises it, left lowers `x`, right raises it. A step that would leave the
/// coordinate range gives `None` instead of wrapping around.
pub fn navigate(position: Position, direction: Direction) -> (r: Option<Position>)
    ensures
        r matches Some(q) ==> representable(step(position, direction))
            && q.0 == step(position, direction).0 && q.1 == step(position, direction).1,
        r is None <==> !representable(step(position, direction)),
{
    let Position(x, y) = position;
    match direction {
        Direction::Up => if y > 0 { Some(Position(x, y - 1)) } else { None },
        Direction::Down => if y < u8::MAX { Some(Position(x, y + 1)) } else { None },
        Direction::Left => if x > 0 { Some(Position(x - 1, y)) } else { None },
        Direction::Right => if x < u8::MAX { Some(Position(x + 1, y)) } else { None },
    }
}

/// A step, when it exists, lands on a neighbouring cell.
pub proof fn lemma_step_is_adjacent(p: Position, d: Direction, q: Position)
    requires
        q.0 == step(p, d).0,
        q.1 == step(p, d).1,
    ensures
        adjacent(p, q),
{
}

} // verus!
