//! Laws that relate the grid operations to one another.
use vstd::prelude::*;

use crate::grid::{AllocationEvent, Board, Object};
use crate::position::Position;

verus! {

/// On an empty grid, placing any object on any cell inside the grid
/// succeeds, and reading that cell back gives the object.
pub proof fn lemma_allocate_on_empty(b: Board, p: Position, o: Object)
    requires
        b.wf(),
        b.cells == Map::<Position, Object>::empty(),
        b.contains(p),
    ensures
        b.allocation(p, o) == AllocationEvent::Allocated,
        b.allocate(p, o).lookup(p) == Some(o),
{
}

/// Placing an object outside the grid reports `OutOfBounds` and leaves the
/// grid as it was, so a second such placement reports the same again.
pub proof fn lemma_out_of_bounds_is_inert(b: Board, p: Position, o: Object)
    requires
        b.wf(),
        !b.contains(p),
    ensures
        b.allocation(p, o) == AllocationEvent::OutOfBounds,
        b.allocate(p, o) == b,
        b.allocate(p, o).allocation(p, o) == AllocationEvent::OutOfBounds,
        b.allocate(p, o).allocate(p, o) == b,
{
}

/// Placing an object on a cell that a read shows holding some object other
/// than the `Empty` sentinel reports a collision with exactly that object,
/// and the cell then holds the new object.
pub proof fn lemma_collision_reports_previous(b: Board, p: Position, previous: Object, o: Object)
    requires
        b.wf(),
        b.lookup(p) == Some(previous),
        previous != Object::Empty,
    ensures
        b.allocation(p, o) == AllocationEvent::Collition(previous),
        b.allocate(p, o).lookup(p) == Some(o),
{
}

/// Moving from a cell that holds nothing, or only the `Empty` sentinel,
/// reports `EmptySpace` and changes nothing, in particular not the target cell.
pub proof fn lemma_move_from_empty(b: Board, from: Position, to: Position)
    requires
        b.wf(),
        b.lookup(from) is None || b.lookup(from) == Some(Object::Empty),
    ensures
        b.movement(from, to) == AllocationEvent::EmptySpace,
        b.relocate(from, to) == b,
        b.relocate(from, to).lookup(to) == b.lookup(to),
{
}

/// A move of an object other than the `Empty` sentinel to another cell
/// inside the grid is clearing its cell
/// and then placing it on the target: afterwards the source reads as free
/// and the target holds the moved object.
pub proof fn lemma_move_is_free_then_allocate(b: Board, from: Position, to: Position, o: Object)
    requires
        b.wf(),
        b.lookup(from) == Some(o),
        o != Object::Empty,
        b.contains(to),
        from != to,
    ensures
        b.movement(from, to) == b.free(from).allocation(to, o),
        b.relocate(from, to) == b.free(from).allocate(to, o),
        b.relocate(from, to).lookup(from) is None,
        b.relocate(from, to).lookup(to) == Some(o),
{
}

} // verus!
