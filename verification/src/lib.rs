//! A turn-based grid puzzle engine in the Sokoban family: a player occupies
//! one cell of a fixed-size board, moves in the four cardinal directions, and
//! can push at most one box per move when the cell beyond the box is
//! unobstructed. The engine keeps the board consistent across turns, enforces
//! movement and push legality, and cycles through a fixed sequence of
//! preloaded stages. Rendering and keyboard capture are external concerns.

pub mod game;
pub mod laws;
pub mod model;
pub mod stages;
