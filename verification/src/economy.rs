use vstd::prelude::*;
use crate::ambient::{fresh_id, is_random_uuid};

verus! {

/// The most move points a player can hold.
pub const MAX_STORED_MOVES: u64 = 5;

/// The ticks between two regenerated move points.
pub const REGENERATION_PERIOD: u64 = 3;

/// One tick of one player's economy: the countdown runs down, and when it
/// has run out the player gains a point, up to the cap, and the countdown
/// starts again.
pub open spec fn regenerated(remaining: u64, countdown: u64) -> (u64, u64) {
    if countdown > 0 {
        (remaining, (countdown - 1) as u64)
    } else if remaining >= MAX_STORED_MOVES {
        (MAX_STORED_MOVES, REGENERATION_PERIOD)
    } else {
        ((remaining + 1) as u64, REGENERATION_PERIOD)
    }
}

fn regenerate(remaining: u64, countdown: u64) -> (next: (u64, u64))
    ensures
        next == regenerated(remaining, countdown),
{
    if countdown > 0 {
        (remaining, countdown - 1)
    } else if remaining >= MAX_STORED_MOVES {
        (MAX_STORED_MOVES, REGENERATION_PERIOD)
    } else {
        (remaining + 1, REGENERATION_PERIOD)
    }
}

/// A game's identifier and the move economy of its two players.
#[derive(Debug, Clone, Copy, PartialEq, Eq, Hash, Structural)]
pub struct Game {
    pub id: u128,
    pub player1_remaining_moves: u64,
    pub player1_move_increment_countdown: u64,
    pub player2_remaining_moves: u64,
    pub player2_move_increment_countdown: u64,
}

impl Game {
    /// The economy at the start of game `id`: one move point each, and a
    /// full countdown to the next.
    pub open spec fn opening(id: u128) -> Game {
        Game {
            id,
            player1_remaining_moves: 1,
            player1_move_increment_countdown: REGENERATION_PERIOD,
            player2_remaining_moves: 1,
            player2_move_increment_countdown: REGENERATION_PERIOD,
        }
    }

    /// True when both players' points and countdowns are within their
    /// bounds.
    pub open spec fn in_bounds(self) -> bool {
        &&& self.player1_remaining_moves <= MAX_STORED_MOVES
        &&& self.player1_move_increment_countdown <= REGENERATION_PERIOD
        &&& self.player2_remaining_moves <= MAX_STORED_MOVES
        &&& self.player2_move_increment_countdown <= REGENERATION_PERIOD
    }

    /// The move points of the first player (`first`) or of the second.
    pub open spec fn remaining(self, first: bool) -> u64 {
        if first {
            self.player1_remaining_moves
        } else {
            self.player2_remaining_moves
        }
    }

    /// The economy after one tick: each player's side advances by itself.
    pub open spec fn ticked(self) -> Game {
        let one = regenerated(self.player1_remaining_moves, self.player1_move_increment_countdown);
        let two = regenerated(self.player2_remaining_moves, self.player2_move_increment_countdown);
        Game {
            id: self.id,
            player1_remaining_moves: one.0,
            player1_move_increment_countdown: one.1,
            player2_remaining_moves: two.0,
            player2_move_increment_countdown: two.1,
        }
    }

    /// The economy after the first player (`first`) or the second has paid
    /// one point for a move.
    pub open spec fn spent(self, first: bool) -> Game {
        if first {
            Game { player1_remaining_moves: (self.player1_remaining_moves - 1) as u64, ..self }
        } else {
            Game { player2_remaining_moves: (self.player2_remaining_moves - 1) as u64, ..self }
        }
    }

    /// The opening economy under the identifier `id`.
    pub fn with_id(id: u128) -> (game: Game)
        ensures
            game == Game::opening(id),
    {
        Game {
            id,
            player1_remaining_moves: 1,
            player1_move_increment_countdown: REGENERATION_PERIOD,
            player2_remaining_moves: 1,
            player2_move_increment_countdown: REGENERATION_PERIOD,
        }
    }

    /// The opening economy under a fresh random identifier.
    pub fn new() -> (game: Game)
        ensures
            game == Game::opening(game.id),
            is_random_uuid(game.id),
    {
        Game::with_id(fresh_id())
    }

    /// Advances both players' economies by one tick.
    pub fn tick(&mut self)
        ensures
            *final(self) == old(self).ticked(),
    {
        let one = regenerate(self.player1_remaining_moves, self.player1_move_increment_countdown);
        let two = regenerate(self.player2_remaining_moves, self.player2_move_increment_countdown);
        self.player1_remaining_moves = one.0;
        self.player1_move_increment_countdown = one.1;
        self.player2_remaining_moves = two.0;
        self.player2_move_increment_countdown = two.1;
    }

    /// Takes one move point from the first player (`first`) or the second.
    pub fn spend(&mut self, first: bool)
        requires
            old(self).remaining(first) > 0,
        ensures
            *final(self) == old(self).spent(first),
    {
        if first {
            self.player1_remaining_moves -= 1;
        } else {
            self.player2_remaining_moves -= 1;
        }
    }
}

impl Default for Game {
    fn default() -> (game: Game)
        ensures
            game == Game::opening(game.id),
            is_random_uuid(game.id),
    {
        Game::new()
    }
}

/// A tick keeps points and countdowns within their bounds, never takes a
/// point away, and leaves the other player's side out of each player's
/// result.
pub proof fn lemma_tick_keeps_bounds(game: Game)
    requires
        game.in_bounds(),
    ensures
        game.ticked().in_bounds(),
        game.ticked().player1_remaining_moves >= game.player1_remaining_moves,
        game.ticked().player2_remaining_moves >= game.player2_remaining_moves,
        game.ticked().id == game.id,
{
}

/// A player who holds the most points allowed when the countdown runs out
/// still holds as many after the tick, and the countdown starts again.
pub proof fn lemma_regeneration_is_capped(game: Game, first: bool)
    requires
        game.remaining(first) == MAX_STORED_MOVES,
        first ==> game.player1_move_increment_countdown == 0,
        !first ==> game.player2_move_increment_countdown == 0,
    ensures
        game.ticked().remaining(first) == MAX_STORED_MOVES,
        first ==> game.ticked().player1_move_increment_countdown == REGENERATION_PERIOD,
        !first ==> game.ticked().player2_move_increment_countdown == REGENERATION_PERIOD,
{
}

} // verus!
