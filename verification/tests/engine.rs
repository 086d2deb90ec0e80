use sokoban::game::Game;
use sokoban::model::{Direction, ObjectType, Position, BOARD_SIZE};

fn pos(x: usize, y: usize) -> Position {
    Position { x, y }
}

fn tile(g: &Game, x: usize, y: usize) -> ObjectType {
    g.tile(pos(x, y))
}

fn count_players(g: &Game) -> usize {
    g.field.iter().filter(|t| **t == ObjectType::Player).count()
}

fn wall_cells(g: &Game) -> Vec<usize> {
    (0..g.field.len()).filter(|i| g.field[*i] == ObjectType::Wall).collect()
}

#[test]
fn new_game_initial_state() {
    let g = Game::new();
    assert_eq!(g.position, pos(1, 1));
    assert_eq!(g.b_position, pos(1, 1));
    assert_eq!(g.move_direction, Direction::Right);
    assert_eq!(g.stage_index(), 0);
    assert_eq!(g.field.len(), BOARD_SIZE * BOARD_SIZE);
    assert_eq!(tile(&g, 1, 1), ObjectType::Player);
    assert_eq!(tile(&g, 0, 0), ObjectType::Wall);
    assert_eq!(tile(&g, 6, 5), ObjectType::Box);
    assert_eq!(tile(&g, 13, 1), ObjectType::Goal);
    assert_eq!(tile(&g, 2, 1), ObjectType::Empty);
}

#[test]
fn walk_right_then_down() {
    // On the first stage, three `Right` requests then one `Down`, with no box
    // adjacent: the column grows to 4, then the row to 2, and no box or wall
    // tile changes.
    let mut g = Game::new();
    let walls_before = wall_cells(&g);
    g.move_player();
    assert_eq!(g.position, pos(1, 1));
    for step in 1..=3 {
        g.confirm_position();
        g.right();
        g.reject_if_wall();
        g.move_player();
        assert_eq!(g.position, pos(1 + step, 1));
        assert_eq!(tile(&g, 1 + step, 1), ObjectType::Player);
        assert_eq!(count_players(&g), 1);
    }
    g.confirm_position();
    g.down();
    g.reject_if_wall();
    g.move_player();
    assert_eq!(g.position, pos(4, 2));
    assert_eq!(wall_cells(&g), walls_before);
    assert_eq!(tile(&g, 6, 5), ObjectType::Box);
    assert_eq!(tile(&g, 6, 7), ObjectType::Box);
}

#[test]
fn push_against_wall_rolls_back() {
    // Player at (5,5) facing right, a box at (6,5), a wall at (7,5):
    // requesting `Right`, the next resolve shows the player rolled back to
    // (5,5) and the box still at (6,5).
    let mut g = Game::new();
    g.field[1 * BOARD_SIZE + 1] = ObjectType::Empty;
    g.field[5 * BOARD_SIZE + 5] = ObjectType::Player;
    g.field[5 * BOARD_SIZE + 7] = ObjectType::Wall;
    g.position = pos(5, 5);
    g.b_position = pos(5, 5);
    assert_eq!(tile(&g, 6, 5), ObjectType::Box);
    g.right();
    assert_eq!(g.move_direction, Direction::Right);
    g.reject_if_wall();
    assert_eq!(g.position, pos(6, 5));
    g.move_player();
    assert_eq!(g.position, pos(5, 5));
    assert_eq!(tile(&g, 5, 5), ObjectType::Player);
    assert_eq!(tile(&g, 6, 5), ObjectType::Box);
    assert_eq!(tile(&g, 7, 5), ObjectType::Wall);
}

#[test]
fn push_against_box_rolls_back() {
    // Two boxes in a row block the push just like a wall does.
    let mut g = Game::new();
    g.field[1 * BOARD_SIZE + 1] = ObjectType::Empty;
    g.field[5 * BOARD_SIZE + 5] = ObjectType::Player;
    g.field[5 * BOARD_SIZE + 7] = ObjectType::Box;
    g.position = pos(5, 5);
    g.b_position = pos(5, 5);
    g.right();
    g.reject_if_wall();
    g.move_player();
    assert_eq!(g.position, pos(5, 5));
    assert_eq!(tile(&g, 6, 5), ObjectType::Box);
    assert_eq!(tile(&g, 7, 5), ObjectType::Box);
}

#[test]
fn push_into_empty_succeeds() {
    // Player at (5,5) facing right, a box at (6,5), nothing at (7,5): the
    // next resolve moves the box to (7,5) and the player to (6,5).
    let mut g = Game::new();
    g.field[1 * BOARD_SIZE + 1] = ObjectType::Empty;
    g.field[5 * BOARD_SIZE + 5] = ObjectType::Player;
    g.position = pos(5, 5);
    g.b_position = pos(5, 5);
    assert_eq!(tile(&g, 7, 5), ObjectType::Empty);
    g.right();
    g.reject_if_wall();
    g.move_player();
    assert_eq!(g.position, pos(6, 5));
    assert_eq!(tile(&g, 6, 5), ObjectType::Player);
    assert_eq!(tile(&g, 7, 5), ObjectType::Box);
    assert_eq!(tile(&g, 5, 5), ObjectType::Empty);
    assert_eq!(count_players(&g), 1);
}

#[test]
fn push_reached_by_walking() {
    // Walk from the start cell to the box at (6,5) of the first stage and
    // push it one cell down onto the empty cell (6,6), using only the
    // per-turn protocol.
    let mut g = Game::new();
    g.move_player();
    for _ in 0..5 {
        g.confirm_position();
        g.right();
        g.reject_if_wall();
        g.move_player();
    }
    assert_eq!(g.position, pos(6, 1));
    for _ in 0..3 {
        g.confirm_position();
        g.down();
        g.reject_if_wall();
        g.move_player();
    }
    assert_eq!(g.position, pos(6, 4));
    g.confirm_position();
    g.down();
    g.reject_if_wall();
    g.move_player();
    assert_eq!(g.position, pos(6, 5));
    assert_eq!(tile(&g, 6, 5), ObjectType::Player);
    assert_eq!(tile(&g, 6, 6), ObjectType::Box);
    assert_eq!(count_players(&g), 1);
}

#[test]
fn wall_request_rejected_immediately() {
    // Requesting a move into a wall is reverted by the wall check that
    // follows the request, before any resolve runs.
    let mut g = Game::new();
    g.move_player();
    g.confirm_position();
    g.up();
    assert_eq!(g.position, pos(1, 0));
    g.reject_if_wall();
    assert_eq!(g.position, pos(1, 1));
    g.confirm_position();
    g.left();
    assert_eq!(g.position, pos(0, 1));
    g.reject_if_wall();
    assert_eq!(g.position, pos(1, 1));
}

#[test]
fn boundary_saturates_at_zero() {
    let mut p = Position { x: 0, y: 3 };
    p.left();
    assert_eq!(p, pos(0, 3));
    let mut q = Position { x: 4, y: 0 };
    q.up();
    assert_eq!(q, pos(4, 0));
    let mut r = Position { x: 2, y: 2 };
    r.left();
    r.up();
    assert_eq!(r, pos(1, 1));

    let mut g = Game::new();
    g.position = pos(0, 5);
    g.left();
    assert_eq!(g.position, pos(0, 5));
    assert_eq!(g.move_direction, Direction::Left);
    g.position = pos(5, 0);
    g.up();
    assert_eq!(g.position, pos(5, 0));
}

#[test]
fn direction_gives_the_cell_beyond() {
    let mut g = Game::new();
    g.position = pos(4, 6);
    g.move_direction = Direction::Left;
    assert_eq!(g.direction(), pos(3, 6));
    g.move_direction = Direction::Right;
    assert_eq!(g.direction(), pos(5, 6));
    g.move_direction = Direction::Up;
    assert_eq!(g.direction(), pos(4, 5));
    g.move_direction = Direction::Down;
    assert_eq!(g.direction(), pos(4, 7));
}

#[test]
fn undo_restores_confirmed_position() {
    let mut g = Game::new();
    g.confirm_position();
    g.right();
    assert_eq!(g.position, pos(2, 1));
    g.undo_position();
    assert_eq!(g.position, pos(1, 1));
    assert_eq!(g.b_position, pos(1, 1));
}

#[test]
fn goal_cell_has_no_special_effect() {
    // Walking onto a goal cell neither ends the stage nor changes the index:
    // the player is simply drawn there.
    let mut g = Game::new();
    g.move_player();
    for _ in 0..12 {
        g.confirm_position();
        g.right();
        g.reject_if_wall();
        g.move_player();
    }
    assert_eq!(g.position, pos(13, 1));
    assert_eq!(tile(&g, 13, 1), ObjectType::Player);
    assert_eq!(g.stage_index(), 0);
}
