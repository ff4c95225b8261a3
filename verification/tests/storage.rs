use std::time::Instant;

use glub_server::game_state::VisibleSlot;
use glub_server::messages::{JoinQueueRequest, MoveRequest};
use glub_server::pieces::{ChestPiece, PlayerColor};
use glub_server::storage::{GameStorage, QueuedPlayer};

fn player(id: u128, name: &str) -> QueuedPlayer {
    QueuedPlayer { id, name: name.to_string() }
}

fn storage_with_game(game_id: u128, white: u128, black: u128) -> GameStorage {
    let mut storage = GameStorage::new();
    storage.create_game(game_id, player(white, "white"), player(black, "black"), Instant::now());
    storage
}

fn request(player_id: u128, from: (usize, usize), to: (usize, usize)) -> MoveRequest {
    MoveRequest { player_id, from, to }
}

fn shown_cells(storage: &GameStorage, game_id: u128, player_id: u128) -> usize {
    let view = storage.get_fogged_board(game_id, player_id).unwrap();
    view.slots.iter().flatten().filter(|slot| slot.is_some()).count()
}

#[test]
fn new_storage_knows_no_game() {
    let storage = GameStorage::new();
    assert_eq!(storage.get_game_status(0).err(), Some("Game not found".to_string()));
    assert_eq!(storage.get_fogged_board(0, 0).err(), Some("Game not found".to_string()));
}

#[test]
fn first_player_waits_in_the_queue() {
    let mut storage = GameStorage::new();
    let request = JoinQueueRequest { player_name: "alice".to_string() };
    let response = storage.join_queue(request.player_name).unwrap();
    assert_eq!(response.game_id, None);
    assert_eq!(response.message, "Added to queue, waiting for opponent...");
}

#[test]
fn two_joins_start_exactly_one_game() {
    let mut storage = GameStorage::new();
    let first = storage.join_queue("alice".to_string()).unwrap();
    let second = storage.join_queue("bob".to_string()).unwrap();
    assert_eq!(first.game_id, None);
    assert_eq!(second.message, "Game started!");
    let game_id = second.game_id.expect("the second join starts a game");
    assert_ne!(first.player_id, second.player_id);

    let status = storage.get_game_status(game_id).unwrap();
    assert_eq!(status.game_id, game_id);
    assert_eq!(status.player1_moves, 1);
    assert_eq!(status.player2_moves, 1);
    assert_eq!(status.current_turn, None);

    assert_eq!(storage.get_fogged_board(game_id, first.player_id).unwrap().your_color, PlayerColor::White);
    assert_eq!(storage.get_fogged_board(game_id, second.player_id).unwrap().your_color, PlayerColor::Black);
    assert_eq!(shown_cells(&storage, game_id, first.player_id), 16);
    assert_eq!(shown_cells(&storage, game_id, second.player_id), 16);

    let third = storage.join_queue("carol".to_string()).unwrap();
    assert_eq!(third.game_id, None);
    assert_eq!(
        storage.get_fogged_board(game_id, third.player_id).err(),
        Some("Player not in this game".to_string())
    );
}

#[test]
fn the_waiting_player_is_paired_with_the_next_to_join() {
    let mut storage = GameStorage::new();
    let a = storage.join_queue("a".to_string()).unwrap();
    let b = storage.join_queue("b".to_string()).unwrap();
    let c = storage.join_queue("c".to_string()).unwrap();
    let d = storage.join_queue("d".to_string()).unwrap();
    let first_game = b.game_id.unwrap();
    let second_game = d.game_id.unwrap();
    assert_eq!(a.game_id, None);
    assert_eq!(c.game_id, None);
    assert_ne!(first_game, second_game);
    assert_eq!(storage.get_fogged_board(first_game, a.player_id).unwrap().your_color, PlayerColor::White);
    assert_eq!(storage.get_fogged_board(first_game, b.player_id).unwrap().your_color, PlayerColor::Black);
    assert_eq!(storage.get_fogged_board(second_game, c.player_id).unwrap().your_color, PlayerColor::White);
    assert_eq!(storage.get_fogged_board(second_game, d.player_id).unwrap().your_color, PlayerColor::Black);
    for stranger in [c.player_id, d.player_id] {
        assert!(storage.get_fogged_board(first_game, stranger).is_err());
    }
    for stranger in [a.player_id, b.player_id] {
        assert!(storage.get_fogged_board(second_game, stranger).is_err());
    }
}

#[test]
fn join_queue_hands_out_random_version_four_identifiers() {
    let mut storage = GameStorage::new();
    let first = storage.join_queue("alice".to_string()).unwrap();
    let second = storage.join_queue("bob".to_string()).unwrap();
    for id in [first.player_id, second.player_id, second.game_id.unwrap()] {
        assert_eq!(
            id & 0x0000_0000_0000_f000_c000_0000_0000_0000,
            0x0000_0000_0000_4000_8000_0000_0000_0000
        );
    }
    assert_ne!(second.player_id, second.game_id.unwrap());
}

#[test]
fn create_game_starts_from_the_standard_position() {
    let storage = storage_with_game(9, 1, 2);
    let status = storage.get_game_status(9).unwrap();
    assert_eq!((status.game_id, status.player1_moves, status.player2_moves), (9, 1, 1));
    let white = storage.get_fogged_board(9, 1).unwrap();
    assert_eq!(white.your_color, PlayerColor::White);
    assert_eq!(white.slots[0][4], Some(VisibleSlot { piece: ChestPiece::King, color: PlayerColor::White }));
    assert_eq!(white.slots[1][4], Some(VisibleSlot { piece: ChestPiece::Pawn, color: PlayerColor::White }));
    assert_eq!(white.slots[7][4], None);
    let black = storage.get_fogged_board(9, 2).unwrap();
    assert_eq!(black.your_color, PlayerColor::Black);
    assert_eq!(black.slots[7][1], Some(VisibleSlot { piece: ChestPiece::Scout, color: PlayerColor::Black }));
    assert_eq!(black.slots[0][4], None);
}

#[test]
fn create_game_replaces_a_game_of_the_same_identifier() {
    let mut storage = storage_with_game(9, 1, 2);
    assert!(storage.make_move(9, request(1, (1, 0), (2, 0))).unwrap().success);
    storage.create_game(9, player(3, "c"), player(4, "d"), Instant::now());
    assert!(storage.get_fogged_board(9, 1).is_err());
    assert_eq!(storage.get_fogged_board(9, 3).unwrap().your_color, PlayerColor::White);
    assert_eq!(storage.get_game_status(9).unwrap().player1_moves, 1);
}

#[test]
fn get_fogged_board_names_what_is_missing() {
    let storage = storage_with_game(9, 1, 2);
    assert_eq!(storage.get_fogged_board(8, 1).err(), Some("Game not found".to_string()));
    assert_eq!(storage.get_fogged_board(9, 3).err(), Some("Player not in this game".to_string()));
}

#[test]
fn make_move_names_what_is_missing() {
    let mut storage = storage_with_game(9, 1, 2);
    assert_eq!(storage.make_move(8, request(1, (1, 0), (2, 0))).err(), Some("Game not found".to_string()));
    assert_eq!(
        storage.make_move(9, request(3, (1, 0), (2, 0))).err(),
        Some("Player not in this game".to_string())
    );
    let status = storage.get_game_status(9).unwrap();
    assert_eq!((status.player1_moves, status.player2_moves), (1, 1));
}

#[test]
fn make_move_plays_a_move_and_takes_a_point() {
    let mut storage = storage_with_game(9, 1, 2);
    let response = storage.make_move(9, request(1, (1, 3), (2, 3))).unwrap();
    assert!(response.success);
    assert_eq!(response.message, "Move successful");
    assert_eq!(response.remaining_moves, 0);
    let white = storage.get_fogged_board(9, 1).unwrap();
    assert_eq!(white.slots[1][3], None);
    assert_eq!(white.slots[2][3], Some(VisibleSlot { piece: ChestPiece::Pawn, color: PlayerColor::White }));
    let status = storage.get_game_status(9).unwrap();
    assert_eq!((status.player1_moves, status.player2_moves), (0, 1));
}

#[test]
fn make_move_reports_a_refused_move_in_band() {
    let mut storage = storage_with_game(9, 1, 2);
    let response = storage.make_move(9, request(1, (1, 3), (3, 3))).unwrap();
    assert!(!response.success);
    assert_eq!(response.message, "Invalid move for this piece");
    assert_eq!(response.remaining_moves, 1);
    let white = storage.get_fogged_board(9, 1).unwrap();
    assert_eq!(white.slots[1][3], Some(VisibleSlot { piece: ChestPiece::Pawn, color: PlayerColor::White }));
    assert_eq!(white.slots[3][3], None);
    assert_eq!(storage.get_game_status(9).unwrap().player1_moves, 1);
}

#[test]
fn make_move_without_points_is_refused_in_band() {
    let mut storage = storage_with_game(9, 1, 2);
    assert!(storage.make_move(9, request(2, (6, 0), (5, 0))).unwrap().success);
    let response = storage.make_move(9, request(2, (6, 1), (5, 1))).unwrap();
    assert!(!response.success);
    assert_eq!(response.message, "No moves remaining");
    assert_eq!(response.remaining_moves, 0);
    let black = storage.get_fogged_board(9, 2).unwrap();
    assert_eq!(black.slots[6][1], Some(VisibleSlot { piece: ChestPiece::Pawn, color: PlayerColor::Black }));
    assert_eq!(black.slots[5][1], None);
}

#[test]
fn make_move_leaves_other_games_alone() {
    let mut storage = storage_with_game(9, 1, 2);
    storage.create_game(10, player(1, "white"), player(2, "black"), Instant::now());
    assert!(storage.make_move(9, request(1, (1, 0), (2, 0))).unwrap().success);
    let other = storage.get_game_status(10).unwrap();
    assert_eq!((other.player1_moves, other.player2_moves), (1, 1));
    let view = storage.get_fogged_board(10, 1).unwrap();
    assert_eq!(view.slots[1][0], Some(VisibleSlot { piece: ChestPiece::Pawn, color: PlayerColor::White }));
    assert_eq!(view.slots[2][0], None);
}

#[test]
fn get_game_status_has_no_turn() {
    let storage = storage_with_game(9, 1, 2);
    let status = storage.get_game_status(9).unwrap();
    assert_eq!(status.current_turn, None);
    assert_eq!(storage.get_game_status(10).err(), Some("Game not found".to_string()));
}

#[test]
fn increment_moves_grants_a_point_every_fourth_tick() {
    let mut storage = storage_with_game(9, 1, 2);
    for _ in 0..3 {
        storage.increment_moves();
        let status = storage.get_game_status(9).unwrap();
        assert_eq!((status.player1_moves, status.player2_moves), (1, 1));
    }
    storage.increment_moves();
    let status = storage.get_game_status(9).unwrap();
    assert_eq!((status.player1_moves, status.player2_moves), (2, 2));
}

#[test]
fn increment_moves_stops_at_five_points() {
    let mut storage = storage_with_game(9, 1, 2);
    for _ in 0..16 {
        storage.increment_moves();
    }
    let status = storage.get_game_status(9).unwrap();
    assert_eq!((status.player1_moves, status.player2_moves), (5, 5));
    for _ in 0..20 {
        storage.increment_moves();
        let status = storage.get_game_status(9).unwrap();
        assert_eq!((status.player1_moves, status.player2_moves), (5, 5));
    }
}

#[test]
fn increment_moves_advances_every_game() {
    let mut storage = GameStorage::new();
    for game_id in 0..20u128 {
        storage.create_game(game_id, player(100 + game_id, "w"), player(200 + game_id, "b"), Instant::now());
    }
    assert!(storage.make_move(4, request(104, (1, 0), (2, 0))).unwrap().success);
    for _ in 0..4 {
        storage.increment_moves();
    }
    for game_id in 0..20u128 {
        let status = storage.get_game_status(game_id).unwrap();
        let expected = if game_id == 4 { (1, 2) } else { (2, 2) };
        assert_eq!((status.player1_moves, status.player2_moves), expected);
    }
    let view = storage.get_fogged_board(4, 104).unwrap();
    assert_eq!(view.slots[2][0], Some(VisibleSlot { piece: ChestPiece::Pawn, color: PlayerColor::White }));
}

#[test]
fn increment_moves_leaves_the_queue_alone() {
    let mut storage = GameStorage::new();
    let waiting = storage.join_queue("alice".to_string()).unwrap();
    storage.increment_moves();
    let second = storage.join_queue("bob".to_string()).unwrap();
    let game_id = second.game_id.unwrap();
    assert_eq!(storage.get_fogged_board(game_id, waiting.player_id).unwrap().your_color, PlayerColor::White);
}

#[test]
fn points_come_back_after_a_move() {
    let mut storage = storage_with_game(9, 1, 2);
    assert!(storage.make_move(9, request(1, (1, 0), (2, 0))).unwrap().success);
    assert!(!storage.make_move(9, request(1, (2, 0), (3, 0))).unwrap().success);
    for _ in 0..4 {
        storage.increment_moves();
    }
    let response = storage.make_move(9, request(1, (2, 0), (3, 0))).unwrap();
    assert!(response.success);
    assert_eq!(response.remaining_moves, 0);
}
