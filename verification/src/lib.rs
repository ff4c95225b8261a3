//! A fog-of-war chess variant for two players: the board and the rules of
//! movement, what each side sees, one game's move-point economy, and the
//! storage that pairs waiting players and keeps every game.

pub mod ambient;
pub mod board;
pub mod economy;
pub mod game_state;
pub mod messages;
pub mod pieces;
pub mod storage;
pub mod visibility;
