use std::time::Instant;

use glub_server::board::ExtendedBoard;
use glub_server::economy::Game;
use glub_server::game_state::{GameState, PlayerInfo, VisibleSlot};
use glub_server::pieces::{ChestPiece, ExtendedSlot, PlayerColor};

const ALICE: u128 = 11;
const BOB: u128 = 22;
const CAROL: u128 = 33;

fn opening() -> GameState {
    let mut board = ExtendedBoard::new();
    board.setup_initial_position();
    GameState {
        game: Game::with_id(5),
        board,
        player1: PlayerInfo { id: ALICE, name: "alice".to_string(), color: PlayerColor::White },
        player2: PlayerInfo { id: BOB, name: "bob".to_string(), color: PlayerColor::Black },
        created_at: Instant::now(),
    }
}

fn initial_board() -> ExtendedBoard {
    let mut board = ExtendedBoard::new();
    board.setup_initial_position();
    board
}

#[test]
fn player_info_clones_field_by_field() {
    let info = PlayerInfo { id: ALICE, name: "alice".to_string(), color: PlayerColor::Black };
    let copy = info.clone();
    assert_eq!(copy.id, ALICE);
    assert_eq!(copy.name, "alice");
    assert_eq!(copy.color, PlayerColor::Black);
}

#[test]
fn project_for_refuses_a_stranger() {
    let state = opening();
    assert_eq!(state.project_for(CAROL).err(), Some("Player not in this game".to_string()));
}

#[test]
fn project_for_tells_each_player_its_color() {
    let state = opening();
    assert_eq!(state.project_for(ALICE).unwrap().your_color, PlayerColor::White);
    assert_eq!(state.project_for(BOB).unwrap().your_color, PlayerColor::Black);
}

#[test]
fn project_for_hides_the_other_side_at_the_start() {
    let state = opening();
    let white = state.project_for(ALICE).unwrap();
    let black = state.project_for(BOB).unwrap();
    for row in 0..8 {
        for col in 0..8 {
            let piece = state.board.slots[row][col].map(|s| VisibleSlot { piece: s.piece, color: s.color });
            assert_eq!(white.slots[row][col], if row < 2 { piece } else { None });
            assert_eq!(black.slots[row][col], if row >= 6 { piece } else { None });
        }
    }
}

#[test]
fn project_for_shows_enemy_pieces_in_sight_only() {
    let mut state = opening();
    state.board = ExtendedBoard::new();
    state.board.slots[3][3] = Some(ExtendedSlot { piece: ChestPiece::Scout, color: PlayerColor::White });
    state.board.slots[3][6] = Some(ExtendedSlot { piece: ChestPiece::Rook, color: PlayerColor::Black });
    state.board.slots[3][7] = Some(ExtendedSlot { piece: ChestPiece::Queen, color: PlayerColor::Black });
    state.board.slots[5][5] = Some(ExtendedSlot { piece: ChestPiece::Pawn, color: PlayerColor::White });

    let white = state.project_for(ALICE).unwrap();
    assert_eq!(white.slots[3][3], Some(VisibleSlot { piece: ChestPiece::Scout, color: PlayerColor::White }));
    assert_eq!(white.slots[3][6], Some(VisibleSlot { piece: ChestPiece::Rook, color: PlayerColor::Black }));
    assert_eq!(white.slots[3][7], None);
    assert_eq!(white.slots[5][5], Some(VisibleSlot { piece: ChestPiece::Pawn, color: PlayerColor::White }));

    let black = state.project_for(BOB).unwrap();
    assert_eq!(black.slots[3][3], None);
    assert_eq!(black.slots[5][5], None);
    assert_eq!(black.slots[3][6], Some(VisibleSlot { piece: ChestPiece::Rook, color: PlayerColor::Black }));
    assert_eq!(black.slots[3][7], Some(VisibleSlot { piece: ChestPiece::Queen, color: PlayerColor::Black }));
    let shown = black.slots.iter().flatten().filter(|slot| slot.is_some()).count();
    assert_eq!(shown, 2);
}

#[test]
fn attempt_move_refuses_a_stranger() {
    let mut state = opening();
    assert_eq!(
        state.attempt_move(CAROL, (1, 0), (2, 0)).err(),
        Some("Player not in this game".to_string())
    );
    assert_eq!(state.board, initial_board());
    assert_eq!(state.game, Game::with_id(5));
}

#[test]
fn attempt_move_plays_a_legal_move_for_one_point() {
    let mut state = opening();
    state.game.player1_remaining_moves = 3;
    let response = state.attempt_move(ALICE, (1, 0), (2, 0)).unwrap();
    assert!(response.success);
    assert_eq!(response.message, "Move successful");
    assert_eq!(response.remaining_moves, 2);
    assert_eq!(state.game.player1_remaining_moves, 2);
    assert_eq!(state.game.player2_remaining_moves, 1);
    assert_eq!(state.game.player1_move_increment_countdown, 3);
    assert_eq!(state.board.slots[1][0], None);
    assert_eq!(
        state.board.slots[2][0],
        Some(ExtendedSlot { piece: ChestPiece::Pawn, color: PlayerColor::White })
    );
}

#[test]
fn attempt_move_charges_the_second_player_for_its_own_move() {
    let mut state = opening();
    let response = state.attempt_move(BOB, (6, 7), (5, 7)).unwrap();
    assert!(response.success);
    assert_eq!(response.remaining_moves, 0);
    assert_eq!(state.game.player1_remaining_moves, 1);
    assert_eq!(state.game.player2_remaining_moves, 0);
}

#[test]
fn attempt_move_without_points_is_a_soft_failure() {
    let mut state = opening();
    state.game.player1_remaining_moves = 0;
    let response = state.attempt_move(ALICE, (1, 0), (2, 0)).unwrap();
    assert!(!response.success);
    assert_eq!(response.message, "No moves remaining");
    assert_eq!(response.remaining_moves, 0);
    assert_eq!(state.board, initial_board());
    assert_eq!(state.game.player1_remaining_moves, 0);

    let response = state.attempt_move(ALICE, (9, 9), (2, 0)).unwrap();
    assert_eq!(response.message, "No moves remaining");
}

#[test]
fn attempt_move_keeps_the_points_when_the_move_is_refused() {
    let cases: [((usize, usize), (usize, usize), &str); 5] = [
        ((8, 0), (2, 0), "Invalid coordinates"),
        ((3, 0), (4, 0), "No piece at source position"),
        ((6, 0), (5, 0), "Not your piece"),
        ((1, 0), (3, 0), "Invalid move for this piece"),
        ((0, 0), (1, 0), "Cannot capture your own piece"),
    ];
    for (from, to, reason) in cases {
        let mut state = opening();
        state.game.player1_remaining_moves = 2;
        let response = state.attempt_move(ALICE, from, to).unwrap();
        assert!(!response.success);
        assert_eq!(response.message, reason);
        assert_eq!(response.remaining_moves, 2);
        assert_eq!(state.game.player1_remaining_moves, 2);
        assert_eq!(state.game.player2_remaining_moves, 1);
        assert_eq!(state.board, initial_board());
    }
}

#[test]
fn attempt_move_refuses_a_scout_capture() {
    let mut state = opening();
    state.board = ExtendedBoard::new();
    state.board.slots[3][3] = Some(ExtendedSlot { piece: ChestPiece::Scout, color: PlayerColor::White });
    state.board.slots[4][4] = Some(ExtendedSlot { piece: ChestPiece::Pawn, color: PlayerColor::Black });
    let before = state.board.clone();
    let response = state.attempt_move(ALICE, (3, 3), (4, 4)).unwrap();
    assert!(!response.success);
    assert_eq!(response.message, "Scouts cannot capture pieces");
    assert_eq!(response.remaining_moves, 1);
    assert_eq!(state.board, before);
}

#[test]
fn both_players_may_move_without_waiting_for_each_other() {
    let mut state = opening();
    state.game.player1_remaining_moves = 2;
    assert!(state.attempt_move(ALICE, (1, 0), (2, 0)).unwrap().success);
    assert!(state.attempt_move(ALICE, (2, 0), (3, 0)).unwrap().success);
    assert!(state.attempt_move(BOB, (6, 0), (5, 0)).unwrap().success);
    assert!(!state.attempt_move(BOB, (5, 0), (4, 0)).unwrap().success);
    assert_eq!(state.status(), (0, 0));
}

#[test]
fn status_gives_both_players_points() {
    let mut state = opening();
    assert_eq!(state.status(), (1, 1));
    state.game.player1_remaining_moves = 4;
    state.game.player2_remaining_moves = 0;
    assert_eq!(state.status(), (4, 0));
}

#[test]
fn first_seat_wins_when_both_players_share_an_identifier() {
    let mut state = opening();
    state.player2.id = ALICE;
    assert_eq!(state.project_for(ALICE).unwrap().your_color, PlayerColor::White);
    let response = state.attempt_move(ALICE, (6, 0), (5, 0)).unwrap();
    assert_eq!(response.message, "Not your piece");
}
