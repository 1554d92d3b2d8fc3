//! The game layer: the collision rule table, and snake bodies that move over a grid.
use vstd::prelude::*;

use crate::grid::{AllocationEvent, Board, Grid, Object};
use crate::position::{adjacent, lemma_step_is_adjacent, navigate, representable, step, Direction, Position};

verus! {

/// The number of segments of a freshly placed player.
pub const INITIAL_LENGTH: usize = 3;

/// What happens when `mover` is placed where `obstacle` already is: a snake
/// dies on a wall or on a snake, eats an apple, and any other meeting has no rule.
pub open spec fn collision_outcome(mover: Object, obstacle: Object) -> AllocationEvent {
    match (mover, obstacle) {
        (Object::Snake, Object::Wall) => AllocationEvent::Crash,
        (Object::Snake, Object::Snake) => AllocationEvent::Crash,
        (Object::Snake, Object::Apple) => AllocationEvent::Yum,
        _ => AllocationEvent::CollitionRuleMissing,
    }
}

/// The game-level outcome of a grid placement of `mover`: a collision goes
/// through the rule table, a free cell stays `Allocated`, and a placement
/// that did not happen at all is fatal.
pub open spec fn resolution(mover: Object, event: AllocationEvent) -> AllocationEvent {
    match event {
        AllocationEvent::Collition(obstacle) => collision_outcome(mover, obstacle),
        AllocationEvent::Allocated => AllocationEvent::Allocated,
        _ => AllocationEvent::Crash,
    }
}

impl Object {
    /// Looks up the rule table for this object running into `obstacle`.
    pub fn handle_collition(&self, obstacle: Object) -> (r: AllocationEvent)
        ensures
            r == collision_outcome(*self, obstacle),
    {
        match (self, obstacle) {
            (Object::Snake, Object::Snake) | (Object::Snake, Object::Wall) => AllocationEvent::Crash,
            (Object::Snake, Object::Apple) => AllocationEvent::Yum,
            _ => AllocationEvent::CollitionRuleMissing,
        }
    }
}

/// Places `o` on each of `cells` in turn, stopping at the first placement
/// that does not report `Allocated`: the board after the last placement
/// made, and the event that ended the run.
pub open spec fn place_all(b: Board, cells: Seq<Position>, o: Object) -> (Board, AllocationEvent)
    decreases cells.len(),
{
    if cells.len() == 0 {
        (b, AllocationEvent::Allocated)
    } else {
        let event = b.allocation(cells[0], o);
        let next = b.allocate(cells[0], o);
        if event == AllocationEvent::Allocated {
            place_all(next, cells.drop_first(), o)
        } else {
            (next, event)
        }
    }
}

/// The cells of a fresh player seeded at `c`: `c` itself and the cells
/// straight above it, tail first.
pub open spec fn seed_column(c: Position) -> Seq<Position> {
    Seq::new(INITIAL_LENGTH as nat, |i: int| Position(c.0, (c.1 - i) as u8))
}

/// The cell one step from `p` towards `d`, where that step stays representable.
pub open spec fn advance(p: Position, d: Direction) -> Position {
    Position(step(p, d).0 as u8, step(p, d).1 as u8)
}

/// A snake body on the grid: its segments from tail to head, and its heading.
pub struct Player {
    body: Vec<Position>,
    direction: Direction,
}

impl View for Player {
    type V = Seq<Position>;

    closed spec fn view(&self) -> Seq<Position> {
        self.body@
    }
}

impl Player {
    /// At least one segment, and each segment next to the one before it.
    pub open spec fn wf(&self) -> bool {
        &&& self@.len() >= 1
        &&& forall|i: int| 0 <= i < self@.len() - 1 ==> adjacent(#[trigger] self@[i], self@[i + 1])
    }

    /// The heading of the last move.
    pub closed spec fn heading(&self) -> Direction {
        self.direction
    }

    /// The segments from tail to head.
    pub fn body(&self) -> (r: &Vec<Position>)
        ensures
            r@ == self@,
    {
        &self.body
    }

    /// The newest segment.
    pub fn head(&self) -> (r: Position)
        requires
            self.wf(),
        ensures
            r == self@.last(),
    {
        self.body[self.body.len() - 1]
    }

    /// The heading of the last move.
    pub fn direction(&self) -> (r: Direction)
        ensures
            r == self.heading(),
    {
        self.direction
    }
}

/// A game session: the grid that every object lives on.
pub struct Game {
    pub grid: Grid,
}

impl Game {
    /// The session's grid is well formed.
    pub open spec fn wf(&self) -> bool {
        self.grid.wf()
    }

    /// A session over `grid`.
    pub fn new(grid: Grid) -> (r: Game)
        requires
            grid.wf(),
        ensures
            r.wf(),
            r.grid@ == grid@,
    {
        Game { grid }
    }

    /// Places `object` at `position` and reports the game-level outcome: the
    /// rule table's verdict on a collision, `Allocated` on a free cell, and
    /// `Crash` where the grid refused the placement. The grid is written as
    /// `Grid::allocate_at` writes it.
    pub fn allocate_at(&mut self, position: Position, object: Object) -> (r: AllocationEvent)
        requires
            old(self).wf(),
        ensures
            final(self).wf(),
            final(self).grid@ == old(self).grid@.allocate(position, object),
            r == resolution(object, old(self).grid@.allocation(position, object)),
    {
        match self.grid.allocate_at(position, object) {
            AllocationEvent::Collition(obstacle) => object.handle_collition(obstacle),
            AllocationEvent::Allocated => AllocationEvent::Allocated,
            _ => AllocationEvent::Crash,
        }
    }

    /// Seeds a player at the grid's center: places a snake segment there and
    /// on each cell straight above it until the body is `INITIAL_LENGTH`
    /// long, the last placed segment being the head, heading up. A placement
    /// that does not report `Allocated` stops the seeding and is returned as
    /// the error; the segments placed until then stay on the grid.
    pub fn add_player(&mut self) -> (r: Result<Player, AllocationEvent>)
        requires
            old(self).wf(),
        ensures
            final(self).wf(),
            ({
                let (board, event) = place_all(
                    old(self).grid@,
                    seed_column(old(self).grid@.center()),
                    Object::Snake,
                );
                &&& final(self).grid@ == board
                &&& r is Ok <==> event == AllocationEvent::Allocated
                &&& r matches Err(e) ==> e == event
                &&& r matches Ok(player) ==> {
                    &&& player.wf()
                    &&& player@ == seed_column(old(self).grid@.center())
                    &&& player.heading() == Direction::Up
                }
            }),
    {
        let ghost start = self.grid@;
        let c = self.grid.center();
        let ghost column = seed_column(c);
        let mut position = c;
        let mut body: Vec<Position> = Vec::new();
        let mut i: usize = 0;
        assert(column.skip(0) =~= column);
        while i < INITIAL_LENGTH
            invariant
                self.wf(),
                start == old(self).grid@,
                c == start.center(),
                c.1 + 1 >= i,
                column == seed_column(c),
                i <= INITIAL_LENGTH,
                body@ == column.take(i as int),
                i < INITIAL_LENGTH ==> position == column[i as int] && c.1 - i >= 0,
                place_all(start, column, Object::Snake) == place_all(
                    self.grid@,
                    column.skip(i as int),
                    Object::Snake,
                ),
            decreases INITIAL_LENGTH - i,
        {
            let ghost before = self.grid@;
            let event = self.grid.allocate_at(position, Object::Snake);
            assert(column.skip(i as int)[0] == position);
            assert(column.skip(i as int).drop_first() =~= column.skip(i + 1));
            assert(place_all(before, column.skip(i as int), Object::Snake) == if event
                == AllocationEvent::Allocated {
                place_all(self.grid@, column.skip(i + 1), Object::Snake)
            } else {
                (self.grid@, event)
            });
            if event != AllocationEvent::Allocated {
                return Err(event);
            }
            body.push(position);
            assert(body@ =~= column.take(i + 1));
            i = i + 1;
            if i < INITIAL_LENGTH {
                match navigate(position, Direction::Up) {
                    Some(p) => {
                        position = p;
                    },
                    None => {
                        return Err(AllocationEvent::OutOfBounds);
                    },
                }
            }
        }
        assert(column.skip(INITIAL_LENGTH as int).len() == 0);
        assert(place_all(self.grid@, column.skip(INITIAL_LENGTH as int), Object::Snake) == (
        self.grid@, AllocationEvent::Allocated));
        assert(body@ =~= column);
        assert forall|j: int| 0 <= j < column.len() - 1 implies adjacent(
            #[trigger] column[j],
            column[j + 1],
        ) by {}
        Ok(Player { body, direction: Direction::Up })
    }

    /// Moves `player` one cell towards `direction`. When that cell lies off
    /// the grid nothing changes and `OutOfBounds` comes back. Otherwise the
    /// new cell becomes the head, the tail segment leaves the body and its
    /// cell is cleared, and then a snake segment is placed on the new cell;
    /// the outcome is that placement resolved through the rule table.
    pub fn move_player(&mut self, player: &mut Player, direction: Direction) -> (r: AllocationEvent)
        requires
            old(self).wf(),
            old(player).wf(),
        ensures
            final(self).wf(),
            final(player).wf(),
            ({
                let head = old(player)@.last();
                let next = advance(head, direction);
                if !representable(step(head, direction)) || !old(self).grid@.contains(next) {
                    &&& r == AllocationEvent::OutOfBounds
                    &&& final(self).grid@ == old(self).grid@
                    &&& *final(player) == *old(player)
                } else {
                    let freed = old(self).grid@.free(old(player)@[0]);
                    &&& final(player)@ == old(player)@.drop_first().push(next)
                    &&& final(player).heading() == direction
                    &&& final(self).grid@ == freed.allocate(next, Object::Snake)
                    &&& r == resolution(Object::Snake, freed.allocation(next, Object::Snake))
                }
            }),
    {
        let head = player.head();
        let next = match navigate(head, direction) {
            Some(p) => p,
            None => {
                return AllocationEvent::OutOfBounds;
            },
        };
        if !crate::grid::in_bound(&self.grid, &next) {
            return AllocationEvent::OutOfBounds;
        }
        proof {
            lemma_step_is_adjacent(head, direction, next);
        }
        let tail = player.body.remove(0);
        player.body.push(next);
        player.direction = direction;
        assert(player@ =~= old(player)@.drop_first().push(next));
        assert forall|i: int| 0 <= i < player@.len() - 1 implies adjacent(
            #[trigger] player@[i],
            player@[i + 1],
        ) by {
            if i < player@.len() - 2 {
                assert(old(player)@[i + 1] == player@[i]);
                assert(adjacent(old(player)@[i + 1], old(player)@[i + 2]));
            }
        }
        self.grid.free(&tail);
        let event = self.grid.allocate_at(next, Object::Snake);
        match event {
            AllocationEvent::Collition(obstacle) => Object::Snake.handle_collition(obstacle),
            AllocationEvent::Allocated => AllocationEvent::Allocated,
            _ => AllocationEvent::Crash,
        }
    }
}

} // verus!
