//! The board data model: tile kinds, directions, coordinates, and the spec
//! vocabulary the movement engine's contracts are stated in.

use vstd::prelude::*;

verus! {

/// The kind of object occupying one board cell. Exactly one kind occupies
/// each cell at any time; there is no stacking.
#[derive(Clone, Copy, PartialEq, Eq, Structural, Debug)]
pub enum ObjectType {
    Player,
    Box,
    Wall,
    Goal,
    Empty,
}

/// One of the four cardinal movement directions.
#[derive(Clone, Copy, PartialEq, Eq, Structural, Debug)]
pub enum Direction {
    Left,
    Right,
    Up,
    Down,
}

/// A board coordinate: column `x`, row `y`, both zero-based.
#[derive(Clone, Copy, PartialEq, Eq, Structural, Debug)]
pub struct Position {
    pub x: usize,
    pub y: usize,
}

/// Width and height of every board.
pub const BOARD_SIZE: usize = 15;

/// Number of cells of a board, stored row-major.
pub const CELL_COUNT: usize = BOARD_SIZE * BOARD_SIZE;

pub open spec fn in_bounds(p: Position) -> bool {
    p.x < BOARD_SIZE && p.y < BOARD_SIZE
}

/// Row-major index of a coordinate into a board's cell sequence.
pub open spec fn idx(p: Position) -> int {
    p.y * BOARD_SIZE + p.x
}

pub open spec fn tile_at(g: Seq<ObjectType>, p: Position) -> ObjectType {
    g[idx(p)]
}

pub open spec fn on_border(p: Position) -> bool {
    p.x == 0 || p.x == BOARD_SIZE - 1 || p.y == 0 || p.y == BOARD_SIZE - 1
}

/// Every cell of the board's outer ring is a `Wall`. Each stage establishes
/// this, and it is what keeps position arithmetic from ever indexing outside
/// the board.
pub open spec fn border_walls(g: Seq<ObjectType>) -> bool {
    forall|p: Position| in_bounds(p) && on_border(p) ==> #[trigger] tile_at(g, p) == ObjectType::Wall
}

/// The coordinate one cell further in direction `d`, with no bounds check;
/// meaningful only where the step neither underflows nor overflows.
pub open spec fn step(p: Position, d: Direction) -> Position {
    match d {
        Direction::Left => Position { x: (p.x - 1) as usize, y: p.y },
        Direction::Right => Position { x: (p.x + 1) as usize, y: p.y },
        Direction::Down => Position { x: p.x, y: (p.y + 1) as usize },
        Direction::Up => Position { x: p.x, y: (p.y - 1) as usize },
    }
}

/// The coordinate one cell further in direction `d` as a movement request
/// computes it: decrements saturate at zero, increments stop only at the
/// machine limit.
pub open spec fn move_pos(p: Position, d: Direction) -> Position {
    match d {
        Direction::Left => if p.x > 0 { step(p, d) } else { p },
        Direction::Right => if p.x < usize::MAX { step(p, d) } else { p },
        Direction::Down => if p.y < usize::MAX { step(p, d) } else { p },
        Direction::Up => if p.y > 0 { step(p, d) } else { p },
    }
}

pub proof fn lemma_idx_bounds(p: Position)
    requires
        in_bounds(p),
    ensures
        0 <= idx(p) < CELL_COUNT,
{
}

pub proof fn lemma_idx_injective(p: Position, q: Position)
    requires
        in_bounds(p),
        in_bounds(q),
        idx(p) == idx(q),
    ensures
        p == q,
{
}

impl Position {
    /// Decrement the column, saturating at zero.
    pub fn left(&mut self)
        ensures
            *final(self) == move_pos(*old(self), Direction::Left),
    {
        if self.x > 0 {
            self.x = self.x - 1;
        }
    }

    /// Increment the column; unchanged only at the machine limit.
    pub fn right(&mut self)
        ensures
            *final(self) == move_pos(*old(self), Direction::Right),
    {
        if self.x < usize::MAX {
            self.x = self.x + 1;
        }
    }

    /// Increment the row; unchanged only at the machine limit.
    pub fn down(&mut self)
        ensures
            *final(self) == move_pos(*old(self), Direction::Down),
    {
        if self.y < usize::MAX {
            self.y = self.y + 1;
        }
    }

    /// Decrement the row, saturating at zero.
    pub fn up(&mut self)
        ensures
            *final(self) == move_pos(*old(self), Direction::Up),
    {
        if self.y > 0 {
            self.y = self.y - 1;
        }
    }
}

} // verus!
