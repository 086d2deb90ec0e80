//! The stage table: a fixed ordered sequence of pre-authored 15x15 boards.
//! Each stage is a complete, independent snapshot whose outer ring is `Wall`,
//! with exactly one `Player` start cell at column 1, row 1.

use vstd::prelude::*;

use crate::model::{
    border_walls, idx, in_bounds, on_border, tile_at, ObjectType, Position, BOARD_SIZE, CELL_COUNT,
};

verus! {

/// Number of stages in the table.
pub const STAGE_COUNT: usize = 2;

/// The player's start cell, the same on every stage.
pub open spec fn start_position() -> Position {
    Position { x: 1, y: 1 }
}

/// The tile of stage `s` at column `x`, row `y`.
///
/// Both stages share the outer wall ring, two boxes at (6,5) and (6,7), goal
/// cells at (13,1) and (13,13), and the player start at (1,1). Stage 0 adds a
/// straight inner wall in column 5 spanning rows 4 through 9; stage 1 instead
/// walls the boxes into a chamber open to the south: a lid in row 3 spanning
/// columns 5 through 9, with sides in columns 5 and 9 spanning rows 4
/// through 9.
pub open spec fn stage_tile(s: int, x: int, y: int) -> ObjectType {
    if y == 0 || y == BOARD_SIZE - 1 || x == 0 || x == BOARD_SIZE - 1 {
        ObjectType::Wall
    } else if s == 0 && x == 5 && 4 <= y <= 9 {
        ObjectType::Wall
    } else if s == 1 && y == 3 && 5 <= x <= 9 {
        ObjectType::Wall
    } else if s == 1 && (x == 5 || x == 9) && 4 <= y <= 9 {
        ObjectType::Wall
    } else if x == 6 && (y == 5 || y == 7) {
        ObjectType::Box
    } else if x == 13 && (y == 1 || y == 13) {
        ObjectType::Goal
    } else if x == 1 && y == 1 {
        ObjectType::Player
    } else {
        ObjectType::Empty
    }
}

/// The whole board of stage `s`, as a row-major cell sequence.
pub open spec fn stage_grid(s: int) -> Seq<ObjectType> {
    Seq::new(CELL_COUNT as nat, |k: int| stage_tile(s, k % (BOARD_SIZE as int), k / (BOARD_SIZE as int)))
}

/// A row-major index decomposes into the coordinate it came from.
pub proof fn lemma_idx_decompose(p: Position)
    requires
        in_bounds(p),
    ensures
        idx(p) % (BOARD_SIZE as int) == p.x,
        idx(p) / (BOARD_SIZE as int) == p.y,
{
    let b = BOARD_SIZE as int;
    assert(idx(p) % b == p.x && idx(p) / b == p.y) by (nonlinear_arith)
        requires
            idx(p) == p.y * b + p.x,
            0 <= p.x < b,
            0 <= p.y < b,
            b == 15,
    {
    }
}

/// Reading a stage grid at a coordinate gives that coordinate's stage tile.
pub proof fn lemma_stage_grid_tile(s: int, p: Position)
    requires
        in_bounds(p),
    ensures
        tile_at(stage_grid(s), p) == stage_tile(s, p.x as int, p.y as int),
{
    lemma_idx_decompose(p);
}

/// Every stage's outer ring is `Wall`, and its start cell, and no other
/// cell, holds the player.
pub proof fn lemma_stage_well_formed(s: int)
    ensures
        stage_grid(s).len() == CELL_COUNT,
        border_walls(stage_grid(s)),
        tile_at(stage_grid(s), start_position()) == ObjectType::Player,
        forall|p: Position|
            in_bounds(p) && #[trigger] tile_at(stage_grid(s), p) == ObjectType::Player ==> p
                == start_position(),
{
    assert forall|p: Position| in_bounds(p) && on_border(p) implies #[trigger] tile_at(
        stage_grid(s),
        p,
    ) == ObjectType::Wall by {
        lemma_stage_grid_tile(s, p);
    }
    assert forall|p: Position|
        in_bounds(p) && #[trigger] tile_at(stage_grid(s), p) == ObjectType::Player implies p
        == start_position() by {
        lemma_stage_grid_tile(s, p);
    }
    lemma_stage_grid_tile(s, start_position());
}

/// The tile of stage `s` at column `x`, row `y`, as executable code.
pub fn stage_tile_at(s: usize, x: usize, y: usize) -> (t: ObjectType)
    requires
        x < BOARD_SIZE,
        y < BOARD_SIZE,
    ensures
        t == stage_tile(s as int, x as int, y as int),
{
    if y == 0 || y == BOARD_SIZE - 1 || x == 0 || x == BOARD_SIZE - 1 {
        ObjectType::Wall
    } else if s == 0 && x == 5 && 4 <= y && y <= 9 {
        ObjectType::Wall
    } else if s == 1 && y == 3 && 5 <= x && x <= 9 {
        ObjectType::Wall
    } else if s == 1 && (x == 5 || x == 9) && 4 <= y && y <= 9 {
        ObjectType::Wall
    } else if x == 6 && (y == 5 || y == 7) {
        ObjectType::Box
    } else if x == 13 && (y == 1 || y == 13) {
        ObjectType::Goal
    } else if x == 1 && y == 1 {
        ObjectType::Player
    } else {
        ObjectType::Empty
    }
}

/// Build a fresh copy of stage `s` from the stage table.
pub fn load_stage(s: usize) -> (f: Vec<ObjectType>)
    ensures
        f@ == stage_grid(s as int),
{
    let mut f: Vec<ObjectType> = Vec::new();
    let mut k: usize = 0;
    while k < CELL_COUNT
        invariant
            k <= CELL_COUNT,
            f@.len() == k,
            forall|j: int| 0 <= j < k ==> f@[j] == stage_grid(s as int)[j],
        decreases CELL_COUNT - k,
    {
        let x = k % BOARD_SIZE;
        let y = k / BOARD_SIZE;
        f.push(stage_tile_at(s, x, y));
        k = k + 1;
    }
    assert(f@ =~= stage_grid(s as int));
    f
}

} // verus!
