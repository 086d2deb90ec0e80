//! The movement engine: owns the current board, the player's tentative and
//! confirmed positions, the facing direction and the active stage index, and
//! resolves movement and push legality turn by turn.
//!
//! A turn follows a fixed call protocol, driven by an external loop:
//! `move_player` resolves the previous turn's pending box push (or rolls the
//! move back) and redraws the player onto the board; `confirm_position`
//! records the resolved cell as the rollback target; one of `left`, `right`,
//! `down`, `up` requests the next step; `reject_if_wall` reverts the request
//! immediately if it stepped into a wall. Push legality is thus checked one
//! turn after the key press, wall legality immediately — a deliberate
//! property of the design.

use vstd::prelude::*;

use crate::model::{
    border_walls, idx, in_bounds, move_pos, on_border, step, tile_at, Direction, ObjectType,
    Position, BOARD_SIZE, CELL_COUNT,
};
use crate::model::{lemma_idx_bounds, lemma_idx_injective};
use crate::stages::{lemma_stage_well_formed, load_stage, stage_grid, start_position, STAGE_COUNT};

verus! {

/// The board left by clearing the confirmed cell: the first thing a turn's
/// resolution does, since the player is about to be redrawn elsewhere.
pub open spec fn cleared(g: Seq<ObjectType>, b: Position) -> Seq<ObjectType> {
    g.update(idx(b), ObjectType::Empty)
}

/// A pending push from `p` in direction `d` is illegal: the cell beyond the
/// box holds a wall or another box.
pub open spec fn push_blocked(g: Seq<ObjectType>, p: Position, d: Direction) -> bool {
    tile_at(g, step(p, d)) == ObjectType::Wall || tile_at(g, step(p, d)) == ObjectType::Box
}

/// Where the player stands once a turn is resolved: rolled back to the
/// confirmed cell `b` exactly when the tentative cell `p` holds a box that
/// cannot be pushed, and `p` itself otherwise.
pub open spec fn resolve_pos(
    g: Seq<ObjectType>,
    p: Position,
    b: Position,
    d: Direction,
) -> Position {
    if tile_at(cleared(g, b), p) == ObjectType::Box && push_blocked(cleared(g, b), p, d) {
        b
    } else {
        p
    }
}

/// The board once a turn is resolved: the confirmed cell cleared, a legally
/// pushed box advanced one cell, and the player drawn at the resolved cell.
pub open spec fn resolve_grid(
    g: Seq<ObjectType>,
    p: Position,
    b: Position,
    d: Direction,
) -> Seq<ObjectType> {
    let g1 = cleared(g, b);
    let g2 = if tile_at(g1, p) == ObjectType::Box && !push_blocked(g1, p, d) {
        g1.update(idx(step(p, d)), ObjectType::Box)
    } else {
        g1
    };
    g2.update(idx(resolve_pos(g, p, b, d)), ObjectType::Player)
}

/// Where the player stands once a requested step is checked against walls:
/// back at the confirmed cell `b` exactly when the requested cell `p` holds
/// a wall.
pub open spec fn reject_pos(g: Seq<ObjectType>, p: Position, b: Position) -> Position {
    if tile_at(g, p) == ObjectType::Wall {
        b
    } else {
        p
    }
}

/// What a turn finds when it begins, and leaves behind when it ends: a
/// full-size board whose outer ring is wall, the player drawn exactly once,
/// at the confirmed cell `b`, and a tentative position `p` that holds no
/// wall. A fresh engine and a stage change establish it; the law
/// `lemma_turn_invariant_preserved` shows every full turn keeps it.
pub open spec fn turn_ready(g: Seq<ObjectType>, p: Position, b: Position) -> bool {
    &&& g.len() == CELL_COUNT
    &&& in_bounds(p)
    &&& in_bounds(b)
    &&& border_walls(g)
    &&& tile_at(g, b) == ObjectType::Player
    &&& (forall|q: Position|
        in_bounds(q) && #[trigger] tile_at(g, q) == ObjectType::Player ==> q == b)
    &&& tile_at(g, p) != ObjectType::Wall
}

/// The stage index after an advance: one further, wrapping to 0 past the
/// last stage.
pub open spec fn next_stage_index(s: int) -> int {
    if s + 1 < STAGE_COUNT {
        s + 1
    } else {
        0
    }
}

/// The movement engine's whole state.
pub struct Game {
    /// The current board, row-major; a mutable copy of the active stage.
    pub field: Vec<ObjectType>,
    /// The player's tentative-or-confirmed cell.
    pub position: Position,
    /// The player's cell as of the last fully resolved turn: the rollback
    /// target when a move is rejected.
    pub b_position: Position,
    /// The last requested direction; decides the push-target cell.
    pub move_direction: Direction,
    /// Index of the active stage.
    pub stage: usize,
}

impl Game {
    /// The board as a row-major cell sequence.
    pub open spec fn grid(self) -> Seq<ObjectType> {
        self.field@
    }

    /// Structural well-formedness: the board has its full size and every
    /// position field points into it, and the stage index is in range.
    pub open spec fn wf(self) -> bool {
        &&& self.grid().len() == CELL_COUNT
        &&& in_bounds(self.position)
        &&& in_bounds(self.b_position)
        &&& self.stage < STAGE_COUNT
    }

    /// A fresh engine: stage 0 loaded, the player at the start cell with the
    /// start cell confirmed, facing right.
    pub fn new() -> (game: Game)
        ensures
            game.wf(),
            game.grid() == stage_grid(0),
            turn_ready(game.grid(), game.position, game.b_position),
            game.position == start_position(),
            game.b_position == start_position(),
            game.move_direction == Direction::Right,
            game.stage == 0,
    {
        proof {
            lemma_stage_well_formed(0);
        }
        Game {
            field: load_stage(0),
            position: Position { x: 1, y: 1 },
            b_position: Position { x: 1, y: 1 },
            move_direction: Direction::Right,
            stage: 0,
        }
    }

    /// The cell one step beyond the player in the facing direction: the cell
    /// a box standing at the player's position would be pushed into.
    pub fn direction(&self) -> (r: Position)
        requires
            self.move_direction == Direction::Left ==> self.position.x > 0,
            self.move_direction == Direction::Right ==> self.position.x < usize::MAX,
            self.move_direction == Direction::Down ==> self.position.y < usize::MAX,
            self.move_direction == Direction::Up ==> self.position.y > 0,
        ensures
            r == step(self.position, self.move_direction),
    {
        let mut x = self.position.x;
        let mut y = self.position.y;
        match self.move_direction {
            Direction::Left => {
                x = x - 1;
            },
            Direction::Right => {
                x = x + 1;
            },
            Direction::Down => {
                y = y + 1;
            },
            Direction::Up => {
                y = y - 1;
            },
        }
        Position { x, y }
    }

    /// Roll the player back to the last confirmed cell. The board is
    /// untouched.
    pub fn undo_position(&mut self)
        ensures
            final(self).position == old(self).b_position,
            final(self).field@ == old(self).field@,
            final(self).b_position == old(self).b_position,
            final(self).move_direction == old(self).move_direction,
            final(self).stage == old(self).stage,
    {
        self.position = self.b_position;
    }

    /// Resolve the pending turn: clear the confirmed cell, settle a pending
    /// box push — advancing the box when the cell beyond it is free, rolling
    /// the whole move back when it is not — and draw the player at the
    /// resolved cell. Leaves the board fully consistent with `position`.
    pub fn move_player(&mut self)
        requires
            old(self).wf(),
            border_walls(old(self).grid()),
        ensures
            final(self).field@ == resolve_grid(
                old(self).grid(),
                old(self).position,
                old(self).b_position,
                old(self).move_direction,
            ),
            final(self).position == resolve_pos(
                old(self).grid(),
                old(self).position,
                old(self).b_position,
                old(self).move_direction,
            ),
            final(self).b_position == old(self).b_position,
            final(self).move_direction == old(self).move_direction,
            final(self).stage == old(self).stage,
            final(self).wf(),
    {
        let b = self.b_position;
        proof {
            lemma_idx_bounds(b);
        }
        self.field.set(b.y * BOARD_SIZE + b.x, ObjectType::Empty);

        let p = self.position;
        proof {
            lemma_idx_bounds(p);
        }
        if self.field[p.y * BOARD_SIZE + p.x] == ObjectType::Box {
            proof {
                if idx(p) == idx(b) {
                    lemma_idx_injective(p, b);
                }
                // The cleared board holds a box at `p`, so `p` is not the
                // cleared cell, the original board holds that box too, and
                // by the border-wall invariant `p` is interior.
                assert(tile_at(old(self).grid(), p) == ObjectType::Box);
                assert(!on_border(p)) by {
                    if on_border(p) {
                        assert(tile_at(old(self).grid(), p) == ObjectType::Wall);
                    }
                }
            }
            let t = self.direction();
            proof {
                lemma_idx_bounds(t);
            }
            let beyond = self.field[t.y * BOARD_SIZE + t.x];
            if beyond == ObjectType::Wall || beyond == ObjectType::Box {
                self.undo_position();
            } else {
                self.field.set(t.y * BOARD_SIZE + t.x, ObjectType::Box);
            }
        }

        let q = self.position;
        proof {
            lemma_idx_bounds(q);
        }
        self.field.set(q.y * BOARD_SIZE + q.x, ObjectType::Player);
    }

    /// Request one step left: face left and decrement the column, saturating
    /// at zero. Legality against walls is checked by the following
    /// `reject_if_wall`; legality against boxes by the next `move_player`.
    pub fn left(&mut self)
        ensures
            final(self).position == move_pos(old(self).position, Direction::Left),
            final(self).move_direction == Direction::Left,
            final(self).field@ == old(self).field@,
            final(self).b_position == old(self).b_position,
            final(self).stage == old(self).stage,
    {
        self.position.left();
        self.move_direction = Direction::Left;
    }

    /// Request one step right: face right and increment the column.
    pub fn right(&mut self)
        ensures
            final(self).position == move_pos(old(self).position, Direction::Right),
            final(self).move_direction == Direction::Right,
            final(self).field@ == old(self).field@,
            final(self).b_position == old(self).b_position,
            final(self).stage == old(self).stage,
    {
        self.position.right();
        self.move_direction = Direction::Right;
    }

    /// Request one step down: face down and increment the row.
    pub fn down(&mut self)
        ensures
            final(self).position == move_pos(old(self).position, Direction::Down),
            final(self).move_direction == Direction::Down,
            final(self).field@ == old(self).field@,
            final(self).b_position == old(self).b_position,
            final(self).stage == old(self).stage,
    {
        self.position.down();
        self.move_direction = Direction::Down;
    }

    /// Request one step up: face up and decrement the row, saturating at
    /// zero.
    pub fn up(&mut self)
        ensures
            final(self).position == move_pos(old(self).position, Direction::Up),
            final(self).move_direction == Direction::Up,
            final(self).field@ == old(self).field@,
            final(self).b_position == old(self).b_position,
            final(self).stage == old(self).stage,
    {
        self.position.up();
        self.move_direction = Direction::Up;
    }

    /// Check the just-requested step against walls: if the tile at the new
    /// position is a wall, revert the step only, back to the confirmed cell.
    /// The board is untouched. The driver calls this right after a movement
    /// request, before the next turn begins.
    pub fn reject_if_wall(&mut self)
        requires
            old(self).wf(),
        ensures
            final(self).position == reject_pos(
                old(self).grid(),
                old(self).position,
                old(self).b_position,
            ),
            final(self).field@ == old(self).field@,
            final(self).b_position == old(self).b_position,
            final(self).move_direction == old(self).move_direction,
            final(self).stage == old(self).stage,
            final(self).wf(),
    {
        let p = self.position;
        proof {
            lemma_idx_bounds(p);
        }
        if self.field[p.y * BOARD_SIZE + p.x] == ObjectType::Wall {
            self.undo_position();
        }
    }

    /// Record the current position as confirmed: the rollback target used by
    /// `reject_if_wall` and by the next turn's `move_player`. The driver
    /// calls this once per turn, after resolving and before the next
    /// movement request.
    pub fn confirm_position(&mut self)
        ensures
            final(self).b_position == old(self).position,
            final(self).position == old(self).position,
            final(self).field@ == old(self).field@,
            final(self).move_direction == old(self).move_direction,
            final(self).stage == old(self).stage,
    {
        self.b_position = self.position;
    }

    /// Advance to the next stage, wrapping past the last one: reload the
    /// board from the stage table and put the player back at the start cell,
    /// with the start cell confirmed. The facing direction is left as it
    /// was. This is an explicit command, never triggered by reaching a goal
    /// cell.
    pub fn next_stage(&mut self)
        requires
            old(self).stage < STAGE_COUNT,
        ensures
            final(self).stage == next_stage_index(old(self).stage as int),
            final(self).field@ == stage_grid(final(self).stage as int),
            turn_ready(final(self).grid(), final(self).position, final(self).b_position),
            final(self).position == start_position(),
            final(self).b_position == start_position(),
            final(self).move_direction == old(self).move_direction,
            final(self).wf(),
    {
        self.stage = self.stage + 1;
        if STAGE_COUNT - 1 < self.stage {
            self.stage = 0;
        }
        self.field = load_stage(self.stage);
        self.position = Position { x: 1, y: 1 };
        self.b_position = Position { x: 1, y: 1 };
        proof {
            lemma_stage_well_formed(self.stage as int);
        }
    }

    /// The active stage's index, for a status line.
    pub fn stage_index(&self) -> (s: usize)
        ensures
            s == self.stage,
    {
        self.stage
    }

    /// Read the tile at a coordinate, for drawing.
    pub fn tile(&self, p: Position) -> (t: ObjectType)
        requires
            self.wf(),
            in_bounds(p),
        ensures
            t == tile_at(self.grid(), p),
    {
        proof {
            lemma_idx_bounds(p);
        }
        self.field[p.y * BOARD_SIZE + p.x]
    }
}

} // verus!
