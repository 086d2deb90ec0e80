use sokoban::game::Game;
use sokoban::model::{ObjectType, Position, BOARD_SIZE};
use sokoban::stages::{load_stage, stage_tile_at, STAGE_COUNT};

fn tile_of(c: char) -> ObjectType {
    match c {
        'W' => ObjectType::Wall,
        'P' => ObjectType::Player,
        'B' => ObjectType::Box,
        'G' => ObjectType::Goal,
        ' ' => ObjectType::Empty,
        _ => panic!("unknown tile code"),
    }
}

fn assert_stage_matches(s: usize, rows: [&str; 15]) {
    for (y, row) in rows.iter().enumerate() {
        assert_eq!(row.chars().count(), BOARD_SIZE);
        for (x, c) in row.chars().enumerate() {
            assert_eq!(stage_tile_at(s, x, y), tile_of(c), "stage {} cell ({},{})", s, x, y);
        }
    }
}

#[test]
fn first_stage_layout() {
    assert_stage_matches(
        0,
        [
            "WWWWWWWWWWWWWWW",
            "WP           GW",
            "W             W",
            "W             W",
            "W    W        W",
            "W    WB       W",
            "W    W        W",
            "W    WB       W",
            "W    W        W",
            "W    W        W",
            "W             W",
            "W             W",
            "W             W",
            "W            GW",
            "WWWWWWWWWWWWWWW",
        ],
    );
}

#[test]
fn second_stage_layout() {
    assert_stage_matches(
        1,
        [
            "WWWWWWWWWWWWWWW",
            "WP           GW",
            "W             W",
            "W    WWWWW    W",
            "W    W   W    W",
            "W    WB  W    W",
            "W    W   W    W",
            "W    WB  W    W",
            "W    W   W    W",
            "W    W   W    W",
            "W             W",
            "W             W",
            "W             W",
            "W            GW",
            "WWWWWWWWWWWWWWW",
        ],
    );
}

#[test]
fn load_stage_copies_the_table() {
    for s in 0..STAGE_COUNT {
        let f = load_stage(s);
        assert_eq!(f.len(), BOARD_SIZE * BOARD_SIZE);
        for y in 0..BOARD_SIZE {
            for x in 0..BOARD_SIZE {
                assert_eq!(f[y * BOARD_SIZE + x], stage_tile_at(s, x, y));
            }
        }
    }
}

#[test]
fn stage_advances_and_wraps_to_pristine() {
    // Advancing the stage exactly `STAGE_COUNT` times returns the index to
    // where it started and restores that stage's pristine board, even after
    // the board was disturbed.
    let pristine = Game::new().field.clone();
    let mut g = Game::new();
    g.field[5 * BOARD_SIZE + 6] = ObjectType::Empty;
    g.position = Position { x: 3, y: 4 };
    g.next_stage();
    assert_eq!(g.stage_index(), 1);
    assert_eq!(g.position, Position { x: 1, y: 1 });
    assert_eq!(g.b_position, Position { x: 1, y: 1 });
    assert_eq!(g.tile(Position { x: 7, y: 3 }), ObjectType::Wall);
    assert_eq!(g.tile(Position { x: 9, y: 5 }), ObjectType::Wall);
    assert_eq!(g.tile(Position { x: 6, y: 5 }), ObjectType::Box);
    g.next_stage();
    assert_eq!(g.stage_index(), 0);
    assert_eq!(g.position, Position { x: 1, y: 1 });
    assert_eq!(g.field, pristine);
}

#[test]
fn stage_change_keeps_facing() {
    let mut g = Game::new();
    g.down();
    g.next_stage();
    assert_eq!(g.move_direction, sokoban::model::Direction::Down);
}
