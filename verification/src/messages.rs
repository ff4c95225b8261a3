use vstd::prelude::*;

verus! {

/// A request to join the matchmaking queue.
#[derive(Debug)]
pub struct JoinQueueRequest {
    pub player_name: String,
}

/// The answer to a join: the identifier the player got, and the game, if
/// the join started one.
#[derive(Debug)]
pub struct JoinQueueResponse {
    pub player_id: u128,
    pub game_id: Option<u128>,
    pub message: String,
}

/// A move that a player submits.
#[derive(Debug)]
pub struct MoveRequest {
    pub player_id: u128,
    pub from: (usize, usize),
    pub to: (usize, usize),
}

/// The answer to a submitted move. A refused move is an answer too, with
/// `success` false and the reason in `message`.
#[derive(Debug)]
pub struct MoveResponse {
    pub success: bool,
    pub message: String,
    pub remaining_moves: u64,
}

/// The move points of a game's two players. There is no turn order, so
/// `current_turn` is never set.
#[derive(Debug)]
pub struct GameStatus {
    pub game_id: u128,
    pub player1_moves: u64,
    pub player2_moves: u64,
    pub current_turn: Option<u128>,
}

} // verus!
