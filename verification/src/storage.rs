use vstd::prelude::*;
use vstd::std_specs::iter::IteratorSpec;
use std::collections::HashMap;
use std::time::Instant;
use crate::board::{initial_position, square, ExtendedBoard};
use crate::economy::Game;
use crate::game_state::{FoggedBoard, GameState, PlayerInfo};
use crate::messages::{GameStatus, JoinQueueResponse, MoveRequest, MoveResponse};
use crate::ambient::{current_instant, fresh_id, is_random_uuid};
use crate::pieces::PlayerColor;

verus! {

/// A player who waits for an opponent.
#[derive(Debug)]
pub struct QueuedPlayer {
    pub id: u128,
    pub name: String,
}

/// All the games that are being played, by identifier, and the players who
/// wait for one.
#[derive(Debug)]
pub struct GameStorage {
    games: HashMap<u128, GameState>,
    queue: Vec<QueuedPlayer>,
}

/// What a `GameStorage` holds: its games by identifier and its queue, the
/// player who has waited longest first.
pub struct StorageView {
    pub games: Map<u128, GameState>,
    pub queue: Seq<QueuedPlayer>,
}

impl StorageView {
    /// What holds of a storage at all times: every game is well formed under
    /// its identifier, and at most one player waits, since a second one is
    /// paired with the first at once.
    pub open spec fn well_formed(self) -> bool {
        &&& self.queue.len() <= 1
        &&& forall|id: u128|
            self.games.contains_key(id) ==> (#[trigger] self.games[id]).well_formed(id)
    }
}

impl View for GameStorage {
    type V = StorageView;

    closed spec fn view(&self) -> StorageView {
        StorageView { games: self.games@, queue: self.queue@ }
    }
}

impl GameState {
    /// True of game `game_id` as it starts: the opening economy, the
    /// starting layout, `player1` as White and `player2` as Black.
    pub open spec fn is_opening(self, game_id: u128, player1: QueuedPlayer, player2: QueuedPlayer) -> bool {
        &&& self.game == Game::opening(game_id)
        &&& self.board@ == initial_position()
        &&& self.player1 == PlayerInfo {
            id: player1.id,
            name: player1.name,
            color: PlayerColor::White,
        }
        &&& self.player2 == PlayerInfo {
            id: player2.id,
            name: player2.name,
            color: PlayerColor::Black,
        }
    }

    /// What holds of every game that a storage keeps under the identifier
    /// `id`: the game carries that identifier, its economy is within
    /// bounds, and its first player is White and its second Black.
    pub open spec fn well_formed(self, id: u128) -> bool {
        &&& self.game.id == id
        &&& self.game.in_bounds()
        &&& self.player1.color == PlayerColor::White
        &&& self.player2.color == PlayerColor::Black
    }

    /// The game after one tick of the clock: only the economy moves.
    pub open spec fn ticked(self) -> GameState {
        GameState { game: self.game.ticked(), ..self }
    }
}

/// True when `after` is `before` with game `game_id` added, or put in the
/// place of one of that identifier, in its opening state for `player1` and
/// `player2`.
pub open spec fn opens(
    before: Map<u128, GameState>,
    after: Map<u128, GameState>,
    game_id: u128,
    player1: QueuedPlayer,
    player2: QueuedPlayer,
) -> bool {
    &&& after.contains_key(game_id)
    &&& after.remove(game_id) == before.remove(game_id)
    &&& after[game_id].is_opening(game_id, player1, player2)
}

/// True when `after` and `response` follow from a player named
/// `player_name` joining `before`. With nobody waiting the player waits.
/// Otherwise the player who joined the queue last leaves it and plays White
/// against the newcomer in a new game.
pub open spec fn joins(
    before: StorageView,
    after: StorageView,
    player_name: String,
    response: JoinQueueResponse,
) -> bool {
    let newcomer = QueuedPlayer { id: response.player_id, name: player_name };
    if before.queue.len() == 0 {
        &&& response.game_id is None
        &&& response.message@ == "Added to queue, waiting for opponent..."@
        &&& after.queue == before.queue.push(newcomer)
        &&& after.games == before.games
    } else {
        &&& response.game_id matches Some(game_id)
        &&& response.message@ == "Game started!"@
        &&& after.queue == before.queue.drop_last()
        &&& opens(before.games, after.games, game_id, before.queue.last(), newcomer)
    }
}

impl GameStorage {
    /// A storage with no game and nobody waiting.
    pub fn new() -> (storage: Self)
        ensures
            storage@.games == Map::<u128, GameState>::empty(),
            storage@.queue == Seq::<QueuedPlayer>::empty(),
            storage@.well_formed(),
    {
        Self { games: HashMap::new(), queue: Vec::new() }
    }

    /// Admits a player under a fresh identifier: to a new game against the
    /// player who joined the queue last, or to the queue if nobody waits.
    /// The identifiers of the player and of the game are random; whatever
    /// they are, the storage and the answer agree on them.
    pub fn join_queue(&mut self, player_name: String) -> (result: Result<JoinQueueResponse, String>)
        ensures
            result matches Ok(response) && joins(
                old(self)@,
                final(self)@,
                player_name,
                response,
            ),
            result matches Ok(response) && is_random_uuid(response.player_id) && (
            response.game_id matches Some(game_id) ==> is_random_uuid(game_id)),
            old(self)@.well_formed() ==> final(self)@.well_formed(),
    {
        let player_id = fresh_id();
        match self.queue.pop() {
            Some(waiting_player) => {
                let game_id = fresh_id();
                let created_at = current_instant();
                self.create_game(
                    game_id,
                    waiting_player,
                    QueuedPlayer { id: player_id, name: player_name },
                    created_at,
                );
                Ok(
                    JoinQueueResponse {
                        player_id,
                        game_id: Some(game_id),
                        message: "Game started!".to_string(),
                    },
                )
            },
            None => {
                self.queue.push(QueuedPlayer { id: player_id, name: player_name });
                Ok(
                    JoinQueueResponse {
                        player_id,
                        game_id: None,
                        message: "Added to queue, waiting for opponent...".to_string(),
                    },
                )
            },
        }
    }

    /// Starts game `game_id` between `player1`, who plays White, and
    /// `player2`, who plays Black. The queue is left alone.
    pub fn create_game(
        &mut self,
        game_id: u128,
        player1: QueuedPlayer,
        player2: QueuedPlayer,
        created_at: Instant,
    )
        ensures
            final(self)@.queue == old(self)@.queue,
            opens(old(self)@.games, final(self)@.games, game_id, player1, player2),
            final(self)@.games[game_id].created_at == created_at,
            old(self)@.well_formed() ==> final(self)@.well_formed(),
    {
        let mut board = ExtendedBoard::new();
        board.setup_initial_position();
        let game_state = GameState {
            game: Game::with_id(game_id),
            board,
            player1: PlayerInfo { id: player1.id, name: player1.name, color: PlayerColor::White },
            player2: PlayerInfo { id: player2.id, name: player2.name, color: PlayerColor::Black },
            created_at,
        };
        self.games.insert(game_id, game_state);
        assert(self.games@.remove(game_id) =~= old(self).games@.remove(game_id));
        proof {
            if old(self)@.well_formed() {
                assert forall|id: u128| self@.games.contains_key(id) implies (
                #[trigger] self@.games[id]).well_formed(id) by {
                    if id != game_id {
                        assert(self@.games[id] == old(self)@.games[id]);
                    }
                }
            }
        }
    }

    /// The board of game `game_id` as `player_id` is shown it.
    pub fn get_fogged_board(&self, game_id: u128, player_id: u128) -> (result: Result<
        FoggedBoard,
        String,
    >)
        ensures
            if self@.games.contains_key(game_id) {
                self@.games[game_id].projects(player_id, result)
            } else {
                &&& result matches Err(msg)
                &&& msg@ == "Game not found"@
            },
    {
        match self.games.get(&game_id) {
            Some(game_state) => game_state.project_for(player_id),
            None => Err("Game not found".to_string()),
        }
    }

    /// Submits a move to game `game_id`. No other game and no waiting
    /// player is touched.
    pub fn make_move(&mut self, game_id: u128, move_req: MoveRequest) -> (result: Result<
        MoveResponse,
        String,
    >)
        ensures
            final(self)@.queue == old(self)@.queue,
            final(self)@.games.dom() == old(self)@.games.dom(),
            final(self)@.games.remove(game_id) == old(self)@.games.remove(game_id),
            if old(self)@.games.contains_key(game_id) {
                old(self)@.games[game_id].attempts(
                    final(self)@.games[game_id],
                    move_req.player_id,
                    square(move_req.from),
                    square(move_req.to),
                    result,
                )
            } else {
                &&& result matches Err(msg)
                &&& msg@ == "Game not found"@
            },
            !(result matches Ok(response) && response.success) ==> final(self)@ == old(self)@,
            old(self)@.well_formed() ==> final(self)@.well_formed(),
    {
        let mut game_state = match self.games.remove(&game_id) {
            Some(game_state) => game_state,
            None => {
                assert(self.games@ =~= old(self).games@);
                return Err("Game not found".to_string());
            },
        };
        let result = game_state.attempt_move(move_req.player_id, move_req.from, move_req.to);
        self.games.insert(game_id, game_state);
        proof {
            if !(result is Ok && result->Ok_0.success) {
                assert(self.games@ =~= old(self).games@);
            }
        }
        result
    }

    /// The move points of the two players of game `game_id`.
    pub fn get_game_status(&self, game_id: u128) -> (result: Result<GameStatus, String>)
        ensures
            if self@.games.contains_key(game_id) {
                &&& result matches Ok(status)
                &&& status.game_id == game_id
                &&& status.player1_moves == self@.games[game_id].game.player1_remaining_moves
                &&& status.player2_moves == self@.games[game_id].game.player2_remaining_moves
                &&& status.current_turn is None
            } else {
                &&& result matches Err(msg)
                &&& msg@ == "Game not found"@
            },
    {
        match self.games.get(&game_id) {
            Some(game_state) => {
                let points = game_state.status();
                Ok(
                    GameStatus {
                        game_id,
                        player1_moves: points.0,
                        player2_moves: points.1,
                        current_turn: None,
                    },
                )
            },
            None => Err("Game not found".to_string()),
        }
    }

    fn game_ids(&self) -> (ids: Vec<u128>)
        ensures
            ids@.no_duplicates(),
            forall|id: u128| ids@.contains(id) <==> self@.games.contains_key(id),
    {
        let mut ids: Vec<u128> = Vec::new();
        for id in it: self.games.keys()
            invariant
                ids@.len() == it.index(),
                forall|j: int| 0 <= j < ids@.len() ==> ids@[j] == *it.seq()[j],
        {
            ids.push(*id);
        }
        assert(ids@ =~= self.games.keys().remaining().unref());
        ids
    }

    /// Advances the economy of every game by one tick. Boards, players and
    /// the queue are left alone.
    pub fn increment_moves(&mut self)
        ensures
            final(self)@.queue == old(self)@.queue,
            final(self)@.games.dom() == old(self)@.games.dom(),
            forall|id: u128|
                old(self)@.games.contains_key(id) ==> final(self)@.games[id] == old(
                    self,
                )@.games[id].ticked(),
            old(self)@.well_formed() ==> final(self)@.well_formed(),
    {
        let ids = self.game_ids();
        let mut i: usize = 0;
        while i < ids.len()
            invariant
                i <= ids.len(),
                ids@.no_duplicates(),
                forall|id: u128| ids@.contains(id) <==> old(self).games@.contains_key(id),
                self.queue@ == old(self).queue@,
                self.games@.dom() == old(self).games@.dom(),
                forall|j: int|
                    0 <= j < i ==> self.games@[#[trigger] ids@[j]] == old(
                        self,
                    ).games@[ids@[j]].ticked(),
                forall|j: int|
                    i <= j < ids.len() ==> self.games@[#[trigger] ids@[j]] == old(
                        self,
                    ).games@[ids@[j]],
            decreases ids.len() - i,
        {
            let id = ids[i];
            assert(ids@.contains(id));
            if let Some(mut game_state) = self.games.remove(&id) {
                game_state.game.tick();
                self.games.insert(id, game_state);
            }
            i += 1;
        }
        assert forall|id: u128| old(self)@.games.contains_key(id) implies self@.games[id] == old(
            self,
        )@.games[id].ticked() by {
            assert(ids@.contains(id));
            let j = ids@.index_of(id);
            assert(self.games@[ids@[j]] == old(self).games@[ids@[j]].ticked());
        }
    }
}

/// From a storage where nobody waits, two joins in a row start exactly one
/// game: the first player waits, the second join empties the queue again,
/// and the storage gains the one game that the second answer names, with
/// the first player as White and the second as Black.
pub proof fn lemma_two_joins_start_one_game(
    start: StorageView,
    between: StorageView,
    end: StorageView,
    first_name: String,
    second_name: String,
    first: JoinQueueResponse,
    second: JoinQueueResponse,
)
    requires
        start.queue.len() == 0,
        joins(start, between, first_name, first),
        joins(between, end, second_name, second),
    ensures
        first.game_id is None,
        between.games == start.games,
        second.game_id is Some,
        end.queue.len() == 0,
        end.games.contains_key(second.game_id->0),
        end.games.remove(second.game_id->0) == start.games.remove(second.game_id->0),
        end.games[second.game_id->0].player1.id == first.player_id,
        end.games[second.game_id->0].player1.color == PlayerColor::White,
        end.games[second.game_id->0].player2.id == second.player_id,
        end.games[second.game_id->0].player2.color == PlayerColor::Black,
{
}

} // verus!
