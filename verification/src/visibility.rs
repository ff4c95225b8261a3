use vstd::prelude::*;
use crate::board::{distance_squared, on_board, span, square, ExtendedBoard, Square};
use crate::pieces::{ChestPiece, PlayerColor};

verus! {

/// True when `q` is a cell of the board no farther than `range` from
/// `center`, by Euclidean distance.
pub open spec fn within(center: Square, q: Square, range: int) -> bool {
    on_board(q) && distance_squared(center, q) <= range * range
}

/// True when `p` comes before the cell (`row`, `col`) in row-major order.
pub open spec fn precedes(p: Square, row: int, col: int) -> bool {
    p.0 < row || (p.0 == row && p.1 < col)
}

/// A cell within `range` of `center` is at most `range` away on each axis.
proof fn lemma_within_window(center: Square, q: Square, range: int)
    requires
        0 <= range,
        within(center, q, range),
    ensures
        span(center.0, q.0) <= range,
        span(center.1, q.1) <= range,
{
    let rows = span(center.0, q.0);
    let cols = span(center.1, q.1);
    assert(rows > range ==> rows * rows > range * range) by (nonlinear_arith)
        requires
            0 <= range,
    ;
    assert(cols > range ==> cols * cols > range * range) by (nonlinear_arith)
        requires
            0 <= range,
    ;
    assert(rows * rows >= 0 && cols * cols >= 0) by (nonlinear_arith);
}

pub(crate) fn holds(positions: &Vec<(usize, usize)>, pos: (usize, usize)) -> (found: bool)
    ensures
        found == positions@.contains(pos),
{
    let mut i: usize = 0;
    while i < positions.len()
        invariant
            i <= positions.len(),
            forall|j: int| 0 <= j < i ==> positions@[j] != pos,
        decreases positions.len() - i,
    {
        if positions[i].0 == pos.0 && positions[i].1 == pos.1 {
            return true;
        }
        i += 1;
    }
    false
}

fn insert_position(positions: &mut Vec<(usize, usize)>, pos: (usize, usize))
    requires
        old(positions)@.no_duplicates(),
    ensures
        final(positions)@.no_duplicates(),
        forall|q: (usize, usize)|
            final(positions)@.contains(q) <==> old(positions)@.contains(q) || q == pos,
{
    if !holds(positions, pos) {
        positions.push(pos);
        assert forall|q: (usize, usize)|
            positions@.contains(q) <==> old(positions)@.contains(q) || q == pos by {
            if old(positions)@.contains(q) {
                let j = choose|j: int| 0 <= j < old(positions)@.len() && old(positions)@[j] == q;
                assert(positions@[j] == q);
            }
            if q == pos {
                assert(positions@[positions@.len() - 1] == q);
            }
        }
    }
}

impl ExtendedBoard {
    /// True when a piece of `color` stands on `p` and the cell `q` lies
    /// within its sight. Other pieces do not block the view.
    pub open spec fn sees(&self, color: PlayerColor, p: Square, q: Square) -> bool {
        &&& self@.contains_key(p)
        &&& self@[p].color == color
        &&& within(p, q, self@[p].piece.sight())
    }

    /// True when some piece of `color` sees the cell `q`.
    pub open spec fn visible(&self, color: PlayerColor, q: Square) -> bool {
        exists|p: Square| self.sees(color, p, q)
    }

    /// True when a piece of `color` on a cell before (`row`, `col`) sees `q`.
    pub open spec fn seen_before(&self, color: PlayerColor, q: Square, row: int, col: int) -> bool {
        exists|p: Square| #[trigger] self.sees(color, p, q) && precedes(p, row, col)
    }

    proof fn lemma_seen_step(&self, color: PlayerColor, q: Square, row: int, col: int)
        ensures
            self.seen_before(color, q, row, col + 1) <==> self.seen_before(color, q, row, col)
                || self.sees(color, (row, col), q),
    {
        if self.seen_before(color, q, row, col + 1) {
            let p = choose|p: Square| #[trigger] self.sees(color, p, q) && precedes(p, row, col + 1);
            if p != (row, col) {
                assert(precedes(p, row, col));
            }
        }
        if self.seen_before(color, q, row, col) {
            let p = choose|p: Square| #[trigger] self.sees(color, p, q) && precedes(p, row, col);
            assert(precedes(p, row, col + 1));
        }
        if self.sees(color, (row, col), q) {
            assert(precedes((row, col), row, col + 1));
        }
    }

    proof fn lemma_seen_row(&self, color: PlayerColor, q: Square, row: int)
        ensures
            self.seen_before(color, q, row, 8) <==> self.seen_before(color, q, row + 1, 0),
    {
        if self.seen_before(color, q, row, 8) {
            let p = choose|p: Square| #[trigger] self.sees(color, p, q) && precedes(p, row, 8);
            assert(precedes(p, row + 1, 0));
        }
        if self.seen_before(color, q, row + 1, 0) {
            let p = choose|p: Square| #[trigger] self.sees(color, p, q) && precedes(p, row + 1, 0);
            assert(precedes(p, row, 8));
        }
    }

    proof fn lemma_seen_all(&self, color: PlayerColor, q: Square)
        ensures
            self.seen_before(color, q, 8, 0) <==> self.visible(color, q),
            !self.seen_before(color, q, 0, 0),
    {
        if self.visible(color, q) {
            let p = choose|p: Square| self.sees(color, p, q);
            assert(precedes(p, 8, 0));
        }
    }

    /// The cells that `player_color` sees, each once, in no stated order.
    pub fn get_visible_positions(&self, player_color: &PlayerColor) -> (visible: Vec<(usize, usize)>)
        ensures
            visible@.no_duplicates(),
            forall|q: (usize, usize)|
                visible@.contains(q) <==> self.visible(*player_color, square(q)),
            forall|q: (usize, usize)|
                self@.contains_key(square(q)) && self@[square(q)].color == *player_color
                    ==> visible@.contains(q),
    {
        let mut visible: Vec<(usize, usize)> = Vec::new();
        assert forall|q: (usize, usize)| !visible@.contains(q) by {}
        assert forall|q: (usize, usize)|
            visible@.contains(q) <==> self.seen_before(*player_color, square(q), 0, 0) by {
            self.lemma_seen_all(*player_color, square(q));
        }
        for row in 0..8usize
            invariant
                visible@.no_duplicates(),
                forall|q: (usize, usize)|
                    visible@.contains(q) <==> self.seen_before(
                        *player_color,
                        square(q),
                        row as int,
                        0,
                    ),
        {
            for col in 0..8usize
                invariant
                    row < 8,
                    visible@.no_duplicates(),
                    forall|q: (usize, usize)|
                        visible@.contains(q) <==> self.seen_before(
                            *player_color,
                            square(q),
                            row as int,
                            col as int,
                        ),
            {
                let ghost before = visible@;
                if let Some(slot) = self.slots[row][col] {
                    if slot.color == *player_color {
                        insert_position(&mut visible, (row, col));
                        let sight_range = slot.piece.sight_range();
                        self.add_visible_positions(&mut visible, row, col, sight_range);
                    }
                }
                assert forall|q: (usize, usize)|
                    visible@.contains(q) <==> self.seen_before(
                        *player_color,
                        square(q),
                        row as int,
                        col + 1,
                    ) by {
                    self.lemma_seen_step(*player_color, square(q), row as int, col as int);
                    assert(before.contains(q) <==> self.seen_before(
                        *player_color,
                        square(q),
                        row as int,
                        col as int,
                    ));
                    if q == (row, col) {
                        assert(distance_squared(square(q), square(q)) == 0);
                    }
                }
            }
            assert forall|q: (usize, usize)|
                visible@.contains(q) <==> self.seen_before(
                    *player_color,
                    square(q),
                    row + 1,
                    0,
                ) by {
                self.lemma_seen_row(*player_color, square(q), row as int);
            }
        }
        assert forall|q: (usize, usize)|
            visible@.contains(q) <==> self.visible(*player_color, square(q)) by {
            self.lemma_seen_all(*player_color, square(q));
        }
        assert forall|q: (usize, usize)|
            self@.contains_key(square(q)) && self@[square(q)].color
                == *player_color implies visible@.contains(q) by {
            lemma_own_square_visible(*self, square(q));
        }
        visible
    }

    /// Adds to `visible` the cells of the board within `range` of the cell
    /// (`center_row`, `center_col`).
    pub fn add_visible_positions(
        &self,
        visible: &mut Vec<(usize, usize)>,
        center_row: usize,
        center_col: usize,
        range: usize,
    )
        requires
            old(visible)@.no_duplicates(),
            center_row < 8,
            center_col < 8,
        ensures
            final(visible)@.no_duplicates(),
            forall|q: (usize, usize)|
                final(visible)@.contains(q) <==> old(visible)@.contains(q) || within(
                    (center_row as int, center_col as int),
                    square(q),
                    range as int,
                ),
    {
        let ghost center = (center_row as int, center_col as int);
        let first_row = if center_row >= range {
            center_row - range
        } else {
            0
        };
        let first_col = if center_col >= range {
            center_col - range
        } else {
            0
        };
        let end_row = if range >= 8 || center_row + range >= 8 {
            8
        } else {
            center_row + range + 1
        };
        let end_col = if range >= 8 || center_col + range >= 8 {
            8
        } else {
            center_col + range + 1
        };
        assert forall|q: (usize, usize)| within(center, square(q), range as int) implies first_row
            <= q.0 < end_row && first_col <= q.1 < end_col by {
            lemma_within_window(center, square(q), range as int);
        }
        for row in first_row..end_row
            invariant
                center == (center_row as int, center_col as int),
                center_row < 8,
                center_col < 8,
                first_row <= end_row <= 8,
                first_col <= end_col <= 8,
                visible@.no_duplicates(),
                forall|q: (usize, usize)|
                    within(center, square(q), range as int) ==> first_row <= q.0 < end_row
                        && first_col <= q.1 < end_col,
                forall|q: (usize, usize)|
                    visible@.contains(q) <==> old(visible)@.contains(q) || (within(
                        center,
                        square(q),
                        range as int,
                    ) && q.0 < row),
        {
            for col in first_col..end_col
                invariant
                    center == (center_row as int, center_col as int),
                    center_row < 8,
                    center_col < 8,
                    first_row <= row < end_row <= 8,
                    first_col <= end_col <= 8,
                    visible@.no_duplicates(),
                    forall|q: (usize, usize)|
                        within(center, square(q), range as int) ==> first_row <= q.0 < end_row
                            && first_col <= q.1 < end_col,
                    forall|q: (usize, usize)|
                        visible@.contains(q) <==> old(visible)@.contains(q) || (within(
                            center,
                            square(q),
                            range as int,
                        ) && precedes(square(q), row as int, col as int)),
            {
                let rows = if row >= center_row {
                    row - center_row
                } else {
                    center_row - row
                };
                let cols = if col >= center_col {
                    col - center_col
                } else {
                    center_col - col
                };
                assert(rows * rows <= 49 && cols * cols <= 49) by (nonlinear_arith)
                    requires
                        rows <= 7,
                        cols <= 7,
                ;
                let far = rows * rows + cols * cols;
                let near = if range >= 10 {
                    assert(range * range >= 100) by (nonlinear_arith)
                        requires
                            range >= 10,
                    ;
                    true
                } else {
                    assert(range * range <= 81) by (nonlinear_arith)
                        requires
                            range <= 9,
                    ;
                    far <= range * range
                };
                assert(near == within(center, (row as int, col as int), range as int));
                if near {
                    insert_position(visible, (row, col));
                }
            }
        }
    }
}

/// Every piece sees the cell it stands on.
pub proof fn lemma_own_square_visible(board: ExtendedBoard, p: Square)
    requires
        board@.contains_key(p),
    ensures
        board.visible(board@[p].color, p),
{
    let sight = board@[p].piece.sight();
    assert(span(p.0, p.0) == 0 && span(p.1, p.1) == 0);
    assert(distance_squared(p, p) == 0);
    assert(sight * sight >= 0) by (nonlinear_arith);
    assert(board.sees(board@[p].color, p, p));
}

/// A scout sees every cell of the board at distance 3 or less. A cell
/// farther than 3 from it that no other piece of its side sees is not
/// visible to that side.
pub proof fn lemma_scout_sight(board: ExtendedBoard, p: Square, q: Square)
    requires
        board@.contains_key(p),
        board@[p].piece == ChestPiece::Scout,
        on_board(q),
    ensures
        distance_squared(p, q) <= 9 ==> board.visible(board@[p].color, q),
        distance_squared(p, q) > 9 && (forall|o: Square|
            o != p ==> !board.sees(board@[p].color, o, q)) ==> !board.visible(board@[p].color, q),
{
    let color = board@[p].color;
    if distance_squared(p, q) <= 9 {
        assert(board.sees(color, p, q));
    }
    if distance_squared(p, q) > 9 {
        assert(!board.sees(color, p, q));
    }
}

} // verus!
