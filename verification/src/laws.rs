//! Laws of the movement engine, stated and proved over the spec-level
//! transition functions (`resolve_grid`, `resolve_pos`, `reject_pos`,
//! `move_pos`, `next_stage_index`) that the engine's contracts are written
//! in.

use vstd::prelude::*;

use crate::game::{
    cleared, next_stage_index, push_blocked, reject_pos, resolve_grid, resolve_pos, turn_ready,
};
use crate::model::{
    border_walls, idx, in_bounds, lemma_idx_bounds, lemma_idx_injective, move_pos, on_border, step,
    tile_at, Direction, ObjectType, Position, CELL_COUNT,
};
use crate::stages::{stage_grid, STAGE_COUNT};

verus! {

/// On a board whose outer ring is wall, a cell holding a box is interior,
/// so stepping from it in any direction stays on the board.
proof fn lemma_box_cell_interior(g: Seq<ObjectType>, p: Position)
    requires
        g.len() == CELL_COUNT,
        in_bounds(p),
        border_walls(g),
        tile_at(g, p) == ObjectType::Box,
    ensures
        !on_border(p),
        forall|d: Direction| in_bounds(#[trigger] step(p, d)),
{
    assert(!on_border(p)) by {
        if on_border(p) {
            assert(tile_at(g, p) == ObjectType::Wall);
        }
    }
    assert forall|d: Direction| in_bounds(#[trigger] step(p, d)) by {
        match d {
            Direction::Left => {},
            Direction::Right => {},
            Direction::Down => {},
            Direction::Up => {},
        }
    }
}

/// A box seen on the cleared board is a box of the original board, standing
/// away from the cleared cell.
proof fn lemma_cleared_box(g: Seq<ObjectType>, b: Position, p: Position)
    requires
        g.len() == CELL_COUNT,
        in_bounds(p),
        in_bounds(b),
        tile_at(cleared(g, b), p) == ObjectType::Box,
    ensures
        p != b,
        idx(p) != idx(b),
        tile_at(g, p) == ObjectType::Box,
{
    lemma_idx_bounds(p);
    lemma_idx_bounds(b);
    if idx(p) == idx(b) {
        lemma_idx_injective(p, b);
    }
}

/// A step that actually displaced the player, taken once more from an
/// interior cell, cannot land back on the cell it started from: the
/// push-target cell is on the board and distinct from the confirmed cell.
proof fn lemma_push_target_separate(b: Position, p: Position, d: Direction)
    requires
        in_bounds(b),
        in_bounds(p),
        p == move_pos(b, d),
        p != b,
        !on_border(p),
    ensures
        p == step(b, d),
        in_bounds(step(p, d)),
        step(p, d) != b,
        idx(step(p, d)) != idx(b),
{
    match d {
        Direction::Left => {},
        Direction::Right => {},
        Direction::Down => {},
        Direction::Up => {},
    }
    lemma_idx_bounds(step(p, d));
    lemma_idx_bounds(b);
    if idx(step(p, d)) == idx(b) {
        lemma_idx_injective(step(p, d), b);
    }
}

/// Wall immutability: resolving a turn never creates or removes a wall, so
/// no wall tile's position or kind ever changes. The other operations leave
/// the board untouched altogether, as their contracts state.
pub proof fn lemma_walls_immutable(g: Seq<ObjectType>, p: Position, b: Position, d: Direction)
    requires
        g.len() == CELL_COUNT,
        in_bounds(p),
        in_bounds(b),
        border_walls(g),
        tile_at(g, p) != ObjectType::Wall,
        tile_at(g, b) != ObjectType::Wall,
    ensures
        forall|q: Position|
            in_bounds(q) ==> (#[trigger] tile_at(resolve_grid(g, p, b, d), q) == ObjectType::Wall
                <==> tile_at(g, q) == ObjectType::Wall),
{
    let g1 = cleared(g, b);
    let gr = resolve_grid(g, p, b, d);
    assert forall|q: Position|
        in_bounds(q) implies (#[trigger] tile_at(gr, q) == ObjectType::Wall <==> tile_at(g, q)
        == ObjectType::Wall) by {
        lemma_idx_bounds(q);
        lemma_idx_bounds(p);
        lemma_idx_bounds(b);
        if idx(q) == idx(b) {
            lemma_idx_injective(q, b);
        }
        if idx(q) == idx(p) {
            lemma_idx_injective(q, p);
        }
        if tile_at(g1, p) == ObjectType::Box {
            lemma_cleared_box(g, b, p);
            lemma_box_cell_interior(g, p);
            let t = step(p, d);
            lemma_idx_bounds(t);
            if idx(q) == idx(t) {
                lemma_idx_injective(q, t);
            }
            if idx(t) == idx(b) {
                lemma_idx_injective(t, b);
            }
            // A box is only ever written over a cell that held no wall.
            if !push_blocked(g1, p, d) {
                assert(tile_at(g1, t) != ObjectType::Wall);
            }
        }
    }
}

/// Single occupancy: each cell holds exactly one tile kind by construction
/// of the board, and once a turn is resolved the player's cell holds
/// `Player` — never a box as well — and no other cell holds a player,
/// provided the board held no player away from the confirmed cell.
pub proof fn lemma_single_occupancy(g: Seq<ObjectType>, p: Position, b: Position, d: Direction)
    requires
        g.len() == CELL_COUNT,
        in_bounds(p),
        in_bounds(b),
        border_walls(g),
        forall|q: Position|
            in_bounds(q) && #[trigger] tile_at(g, q) == ObjectType::Player ==> q == b,
    ensures
        tile_at(resolve_grid(g, p, b, d), resolve_pos(g, p, b, d)) == ObjectType::Player,
        forall|q: Position|
            in_bounds(q) && #[trigger] tile_at(resolve_grid(g, p, b, d), q) == ObjectType::Player
                ==> q == resolve_pos(g, p, b, d),
{
    let g1 = cleared(g, b);
    let pr = resolve_pos(g, p, b, d);
    let gr = resolve_grid(g, p, b, d);
    lemma_idx_bounds(p);
    lemma_idx_bounds(b);
    lemma_idx_bounds(pr);
    assert(tile_at(gr, pr) == ObjectType::Player);
    assert forall|q: Position|
        in_bounds(q) && #[trigger] tile_at(gr, q) == ObjectType::Player implies q == pr by {
        lemma_idx_bounds(q);
        if idx(q) == idx(pr) {
            lemma_idx_injective(q, pr);
        } else {
            assert(tile_at(g, q) == ObjectType::Player ==> q == b);
            if idx(q) == idx(b) {
                lemma_idx_injective(q, b);
            }
            if tile_at(g1, p) == ObjectType::Box {
                lemma_cleared_box(g, b, p);
                lemma_box_cell_interior(g, p);
                let t = step(p, d);
                lemma_idx_bounds(t);
                if idx(q) == idx(t) {
                    lemma_idx_injective(q, t);
                }
            }
        }
    }
}

/// Push legality: when the player has stepped onto a box and the cell beyond
/// it holds a wall or another box, resolving the turn rolls the player back
/// to the confirmed cell, and neither the box nor the cell beyond it
/// changes.
pub proof fn lemma_push_rejected(g: Seq<ObjectType>, p: Position, b: Position, d: Direction)
    requires
        g.len() == CELL_COUNT,
        in_bounds(p),
        in_bounds(b),
        border_walls(g),
        p == move_pos(b, d),
        p != b,
        tile_at(g, p) == ObjectType::Box,
        tile_at(g, step(p, d)) == ObjectType::Wall || tile_at(g, step(p, d)) == ObjectType::Box,
    ensures
        resolve_pos(g, p, b, d) == b,
        tile_at(resolve_grid(g, p, b, d), p) == ObjectType::Box,
        tile_at(resolve_grid(g, p, b, d), step(p, d)) == tile_at(g, step(p, d)),
        tile_at(resolve_grid(g, p, b, d), b) == ObjectType::Player,
{
    let g1 = cleared(g, b);
    let t = step(p, d);
    lemma_idx_bounds(p);
    lemma_idx_bounds(b);
    if idx(p) == idx(b) {
        lemma_idx_injective(p, b);
    }
    lemma_box_cell_interior(g, p);
    lemma_push_target_separate(b, p, d);
    assert(tile_at(g1, p) == ObjectType::Box);
    assert(tile_at(g1, t) == tile_at(g, t));
    assert(push_blocked(g1, p, d));
    lemma_idx_bounds(t);
    if idx(t) == idx(p) {
        lemma_idx_injective(t, p);
    }
}

/// Push success: when the player has stepped onto a box and the cell beyond
/// it is empty or a goal, resolving the turn moves the box into that cell,
/// puts the player on the box's former cell, and leaves the confirmed cell
/// empty.
pub proof fn lemma_push_succeeds(g: Seq<ObjectType>, p: Position, b: Position, d: Direction)
    requires
        g.len() == CELL_COUNT,
        in_bounds(p),
        in_bounds(b),
        border_walls(g),
        p == move_pos(b, d),
        p != b,
        tile_at(g, p) == ObjectType::Box,
        tile_at(g, step(p, d)) == ObjectType::Empty || tile_at(g, step(p, d)) == ObjectType::Goal,
    ensures
        resolve_pos(g, p, b, d) == p,
        tile_at(resolve_grid(g, p, b, d), step(p, d)) == ObjectType::Box,
        tile_at(resolve_grid(g, p, b, d), p) == ObjectType::Player,
        tile_at(resolve_grid(g, p, b, d), b) == ObjectType::Empty,
{
    let g1 = cleared(g, b);
    let t = step(p, d);
    lemma_idx_bounds(p);
    lemma_idx_bounds(b);
    if idx(p) == idx(b) {
        lemma_idx_injective(p, b);
    }
    lemma_box_cell_interior(g, p);
    lemma_push_target_separate(b, p, d);
    assert(tile_at(g1, p) == ObjectType::Box);
    assert(tile_at(g1, t) == tile_at(g, t));
    assert(!push_blocked(g1, p, d));
    lemma_idx_bounds(t);
    if idx(t) == idx(p) {
        lemma_idx_injective(t, p);
    }
}

/// One full turn of the driver protocol — resolving the pending move,
/// confirming the resolved cell, requesting a step in any direction, and
/// rejecting it if it hit a wall — takes a ready state to a ready state. By
/// induction from a fresh engine, every turn therefore finds the walls in
/// place, the player on the board exactly once, and its own moves in range:
/// the "for all turns" reading of wall immutability and single occupancy.
pub proof fn lemma_turn_invariant_preserved(
    g: Seq<ObjectType>,
    p: Position,
    b: Position,
    d: Direction,
    d2: Direction,
)
    requires
        turn_ready(g, p, b),
    ensures
        turn_ready(
            resolve_grid(g, p, b, d),
            reject_pos(
                resolve_grid(g, p, b, d),
                move_pos(resolve_pos(g, p, b, d), d2),
                resolve_pos(g, p, b, d),
            ),
            resolve_pos(g, p, b, d),
        ),
        in_bounds(move_pos(resolve_pos(g, p, b, d), d2)),
{
    let gr = resolve_grid(g, p, b, d);
    let pr = resolve_pos(g, p, b, d);
    lemma_walls_immutable(g, p, b, d);
    lemma_single_occupancy(g, p, b, d);
    assert(border_walls(gr)) by {
        assert forall|q: Position| in_bounds(q) && on_border(q) implies #[trigger] tile_at(gr, q)
            == ObjectType::Wall by {
            assert(tile_at(g, q) == ObjectType::Wall);
        }
    }
    assert(!on_border(pr)) by {
        if on_border(pr) {
            assert(tile_at(gr, pr) == ObjectType::Wall);
        }
    }
    let p2 = move_pos(pr, d2);
    assert(in_bounds(p2)) by {
        match d2 {
            Direction::Left => {},
            Direction::Right => {},
            Direction::Down => {},
            Direction::Up => {},
        }
    }
}

/// Wall rejection immediacy: a movement request whose target cell holds a
/// wall is reverted by the wall check that follows it, so across the
/// request-and-check pair the position does not change — independent of any
/// pending box resolution, which reads the board only on the following turn.
pub proof fn lemma_wall_rejection_immediate(g: Seq<ObjectType>, p: Position, d: Direction)
    requires
        tile_at(g, move_pos(p, d)) == ObjectType::Wall,
    ensures
        reject_pos(g, move_pos(p, d), p) == p,
{
}

/// Stage wraparound: advancing the stage once per stage in the table brings
/// the index back to where it was, and with it the pristine board of that
/// stage, since a stage change always reloads the board from the table.
pub proof fn lemma_stage_wraparound(s: int)
    requires
        0 <= s < STAGE_COUNT,
    ensures
        next_stage_index(next_stage_index(s)) == s,
        stage_grid(next_stage_index(next_stage_index(s))) == stage_grid(s),
{
}

/// Boundary saturation: a movement request off the low edge of the board
/// leaves the coordinate at zero rather than underflowing.
pub proof fn lemma_boundary_saturation(p: Position)
    ensures
        p.x == 0 ==> move_pos(p, Direction::Left) == p,
        p.y == 0 ==> move_pos(p, Direction::Up) == p,
{
}

} // verus!
