use vstd::prelude::*;
use std::time::Instant;
use crate::board::{on_board, square, ExtendedBoard, Square};
use crate::economy::Game;
use crate::messages::MoveResponse;
use crate::pieces::{ChestPiece, PlayerColor};
use crate::visibility::holds;

verus! {

/// A player of a game: who it is and which side it plays.
#[derive(Debug)]
pub struct PlayerInfo {
    pub id: u128,
    pub name: String,
    pub color: PlayerColor,
}

impl Clone for PlayerInfo {
    fn clone(&self) -> (copy: Self)
        ensures
            copy == *self,
    {
        PlayerInfo { id: self.id, name: self.name.clone(), color: self.color }
    }
}

/// A piece as a player is shown it.
#[derive(Debug, Clone, Copy, PartialEq, Eq, Hash, Structural)]
pub struct VisibleSlot {
    pub piece: ChestPiece,
    pub color: PlayerColor,
}

/// The board as one player is shown it: cells out of the player's sight are
/// blank whatever stands on them.
#[derive(Debug)]
pub struct FoggedBoard {
    pub slots: [[Option<VisibleSlot>; 8]; 8],
    pub your_color: PlayerColor,
}

impl View for FoggedBoard {
    type V = Map<Square, VisibleSlot>;

    /// The shown pieces as a partial map from cells.
    open spec fn view(&self) -> Map<Square, VisibleSlot> {
        Map::new(
            |p: Square| on_board(p) && self.slots[p.0][p.1] is Some,
            |p: Square| self.slots[p.0][p.1]->0,
        )
    }
}

/// What `color` is shown on cell `p` of `board`: the occupant, if there is
/// one and `color` sees the cell.
pub open spec fn shown(board: ExtendedBoard, color: PlayerColor, p: Square) -> Option<VisibleSlot> {
    if board@.contains_key(p) && board.visible(color, p) {
        Some(VisibleSlot { piece: board@[p].piece, color: board@[p].color })
    } else {
        None
    }
}

/// What `color` is shown of `board`.
pub open spec fn fogged(board: ExtendedBoard, color: PlayerColor) -> Map<Square, VisibleSlot> {
    Map::new(|p: Square| shown(board, color, p) is Some, |p: Square| shown(board, color, p)->0)
}

/// One game: the economy, the board, the two players and the time the game
/// was made.
#[derive(Debug)]
pub struct GameState {
    pub game: Game,
    pub board: ExtendedBoard,
    pub player1: PlayerInfo,
    pub player2: PlayerInfo,
    pub created_at: Instant,
}

impl GameState {
    /// Whether `player_id` is the game's first player (`true`), its second
    /// (`false`) or neither.
    pub open spec fn seat(self, player_id: u128) -> Option<bool> {
        if self.player1.id == player_id {
            Some(true)
        } else if self.player2.id == player_id {
            Some(false)
        } else {
            None
        }
    }

    /// The side of the first player (`first`) or of the second.
    pub open spec fn color_at(self, first: bool) -> PlayerColor {
        if first {
            self.player1.color
        } else {
            self.player2.color
        }
    }

    /// True when `result` is what `player_id` is owed on asking for the
    /// board: the fogged board of its side, or the refusal of a stranger.
    pub open spec fn projects(self, player_id: u128, result: Result<FoggedBoard, String>) -> bool {
        match self.seat(player_id) {
            None => {
                &&& result matches Err(msg)
                &&& msg@ == "Player not in this game"@
            },
            Some(first) => {
                &&& result matches Ok(view)
                &&& view.your_color == self.color_at(first)
                &&& view@ == fogged(self.board, self.color_at(first))
            },
        }
    }

    /// True when `after` and `result` are the game and the answer that
    /// follow from `player_id` submitting the move from `from` to `to` in
    /// the game `self`. Only a legal move by a player with a point to spend
    /// changes the game: it is played, and costs the player one point.
    pub open spec fn attempts(
        self,
        after: GameState,
        player_id: u128,
        from: Square,
        to: Square,
        result: Result<MoveResponse, String>,
    ) -> bool {
        match self.seat(player_id) {
            None => {
                &&& result matches Err(msg)
                &&& msg@ == "Player not in this game"@
                &&& after == self
            },
            Some(first) => {
                let remaining = self.game.remaining(first);
                &&& result matches Ok(response)
                &&& if remaining == 0 {
                    &&& !response.success
                    &&& response.message@ == "No moves remaining"@
                    &&& response.remaining_moves == 0
                    &&& after == self
                } else {
                    match self.board.rejection(from, to, self.color_at(first)) {
                        Some(e) => {
                            &&& !response.success
                            &&& response.message@ == e.text()
                            &&& response.remaining_moves == remaining
                            &&& after == self
                        },
                        None => {
                            &&& response.success
                            &&& response.message@ == "Move successful"@
                            &&& response.remaining_moves == remaining - 1
                            &&& after.game == self.game.spent(first)
                            &&& after.board@ == self.board@.remove(from).insert(to, self.board@[from])
                            &&& after.player1 == self.player1
                            &&& after.player2 == self.player2
                            &&& after.created_at == self.created_at
                        },
                    }
                }
            },
        }
    }

    /// The board as `player_id` is shown it.
    pub fn project_for(&self, player_id: u128) -> (result: Result<FoggedBoard, String>)
        ensures
            self.projects(player_id, result),
    {
        let player_color = if self.player1.id == player_id {
            self.player1.color
        } else if self.player2.id == player_id {
            self.player2.color
        } else {
            return Err("Player not in this game".to_string());
        };
        let visible_positions = self.board.get_visible_positions(&player_color);
        let mut fogged_slots: [[Option<VisibleSlot>; 8]; 8] = [[None; 8]; 8];
        for row in 0..8usize
            invariant
                forall|q: (usize, usize)|
                    visible_positions@.contains(q) <==> self.board.visible(player_color, square(q)),
                forall|r: int, c: int|
                    0 <= r < 8 && 0 <= c < 8 ==> #[trigger] fogged_slots[r][c] == (if r < row {
                        shown(self.board, player_color, (r, c))
                    } else {
                        None
                    }),
        {
            for col in 0..8usize
                invariant
                    row < 8,
                    forall|q: (usize, usize)|
                        visible_positions@.contains(q) <==> self.board.visible(
                            player_color,
                            square(q),
                        ),
                    forall|r: int, c: int|
                        0 <= r < 8 && 0 <= c < 8 ==> #[trigger] fogged_slots[r][c] == (if r < row
                            || (r == row && c < col) {
                            shown(self.board, player_color, (r, c))
                        } else {
                            None
                        }),
            {
                if holds(&visible_positions, (row, col)) {
                    if let Some(piece_info) = self.board.slots[row][col] {
                        fogged_slots[row][col] = Some(
                            VisibleSlot { piece: piece_info.piece, color: piece_info.color },
                        );
                    }
                }
            }
        }
        let view = FoggedBoard { slots: fogged_slots, your_color: player_color };
        assert(view@ =~= fogged(self.board, player_color));
        Ok(view)
    }

    /// Plays the move from `from` to `to` for `player_id` if the player has
    /// a move point and the move is legal, and answers with what became of
    /// it.
    pub fn attempt_move(&mut self, player_id: u128, from: (usize, usize), to: (usize, usize)) -> (result: Result<MoveResponse, String>)
        ensures
            old(self).attempts(*final(self), player_id, square(from), square(to), result),
            !(result matches Ok(response) && response.success) ==> *final(self) == *old(self),
            result is Ok && result->Ok_0.success ==> {
                let first = old(self).seat(player_id)->0;
                &&& final(self).game.remaining(first) == old(self).game.remaining(first) - 1
                &&& final(self).game.remaining(!first) == old(self).game.remaining(!first)
                &&& result->Ok_0.remaining_moves == final(self).game.remaining(first)
            },
    {
        let is_player1 = if self.player1.id == player_id {
            true
        } else if self.player2.id == player_id {
            false
        } else {
            return Err("Player not in this game".to_string());
        };
        let remaining_moves = if is_player1 {
            self.game.player1_remaining_moves
        } else {
            self.game.player2_remaining_moves
        };
        if remaining_moves == 0 {
            return Ok(
                MoveResponse {
                    success: false,
                    message: "No moves remaining".to_string(),
                    remaining_moves: 0,
                },
            );
        }
        let player_color = if is_player1 {
            self.player1.color
        } else {
            self.player2.color
        };
        match self.board.make_move(from, to, &player_color) {
            Ok(_) => {
                self.game.spend(is_player1);
                let remaining = if is_player1 {
                    self.game.player1_remaining_moves
                } else {
                    self.game.player2_remaining_moves
                };
                Ok(
                    MoveResponse {
                        success: true,
                        message: "Move successful".to_string(),
                        remaining_moves: remaining,
                    },
                )
            },
            Err(e) => Ok(MoveResponse { success: false, message: e, remaining_moves }),
        }
    }

    /// The move points of the first player and of the second.
    pub fn status(&self) -> (points: (u64, u64))
        ensures
            points.0 == self.game.player1_remaining_moves,
            points.1 == self.game.player2_remaining_moves,
    {
        (self.game.player1_remaining_moves, self.game.player2_remaining_moves)
    }
}

} // verus!
