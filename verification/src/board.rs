use vstd::prelude::*;
use crate::pieces::{ChestPiece, ExtendedSlot, PlayerColor};

verus! {

/// A cell's coordinates as mathematical integers: row first, then column.
pub type Square = (int, int);

/// The coordinates of a cell as contracts speak of them.
pub open spec fn square(p: (usize, usize)) -> Square {
    (p.0 as int, p.1 as int)
}

/// True of the coordinates that name one of the 64 cells.
pub open spec fn on_board(p: Square) -> bool {
    0 <= p.0 < 8 && 0 <= p.1 < 8
}

/// The distance between two coordinates on one axis.
pub open spec fn span(a: int, b: int) -> int {
    if a <= b {
        b - a
    } else {
        a - b
    }
}

/// The coordinate `k` unit steps from `a` in the direction of `b`.
pub open spec fn toward(a: int, b: int, k: int) -> int {
    if a < b {
        a + k
    } else if a > b {
        a - k
    } else {
        a
    }
}

/// The cell `k` unit steps from `from` on the way to `to`, stepping on each
/// axis on which the two differ.
pub open spec fn waypoint(from: Square, to: Square, k: int) -> Square {
    (toward(from.0, to.0, k), toward(from.1, to.1, k))
}

/// True when `to` lies on the row, the column or a diagonal of `from`.
pub open spec fn aligned(from: Square, to: Square) -> bool {
    let rows = span(from.0, to.0);
    let cols = span(from.1, to.1);
    rows == 0 || cols == 0 || rows == cols
}

/// The number of unit steps from `from` to an aligned `to`.
pub open spec fn reach(from: Square, to: Square) -> int {
    let rows = span(from.0, to.0);
    let cols = span(from.1, to.1);
    if rows >= cols {
        rows
    } else {
        cols
    }
}

/// The squared Euclidean distance between two cells.
pub open spec fn distance_squared(p: Square, q: Square) -> int {
    span(p.0, q.0) * span(p.0, q.0) + span(p.1, q.1) * span(p.1, q.1)
}

fn gap(a: usize, b: usize) -> (d: usize)
    ensures
        d == span(a as int, b as int),
{
    if a <= b {
        b - a
    } else {
        a - b
    }
}

fn step_toward(a: usize, b: usize, k: usize) -> (x: usize)
    requires
        a == b || k <= span(a as int, b as int),
    ensures
        x == toward(a as int, b as int, k as int),
{
    if a < b {
        a + k
    } else if a > b {
        a - k
    } else {
        a
    }
}

/// The 8 by 8 grid, row-major. Row 0 is White's back rank, row 7 is Black's.
#[derive(Debug, PartialEq)]
pub struct ExtendedBoard {
    pub slots: [[Option<ExtendedSlot>; 8]; 8],
}

impl Clone for ExtendedBoard {
    fn clone(&self) -> (copy: Self)
        ensures
            copy == *self,
    {
        Self { slots: self.slots }
    }
}

impl View for ExtendedBoard {
    type V = Map<Square, ExtendedSlot>;

    /// The board as a partial map from the occupied cells to their occupants.
    open spec fn view(&self) -> Map<Square, ExtendedSlot> {
        Map::new(
            |p: Square| on_board(p) && self.slots[p.0][p.1] is Some,
            |p: Square| self.slots[p.0][p.1]->0,
        )
    }
}

/// The piece that starts on column `col` of a side's back rank. The two
/// sides mirror each other in the knight and the scout.
pub open spec fn back_rank(color: PlayerColor, col: int) -> ChestPiece {
    if col == 0 || col == 7 {
        ChestPiece::Rook
    } else if col == 2 || col == 5 {
        ChestPiece::Bishop
    } else if col == 3 {
        ChestPiece::Queen
    } else if col == 4 {
        ChestPiece::King
    } else if (col == 1) == (color == PlayerColor::White) {
        ChestPiece::Knight
    } else {
        ChestPiece::Scout
    }
}

/// What the starting layout holds on cell `p`.
pub open spec fn initial_cell(p: Square) -> Option<ExtendedSlot> {
    if !on_board(p) {
        None
    } else if p.0 == 0 {
        Some(ExtendedSlot { piece: back_rank(PlayerColor::White, p.1), color: PlayerColor::White })
    } else if p.0 == 1 {
        Some(ExtendedSlot { piece: ChestPiece::Pawn, color: PlayerColor::White })
    } else if p.0 == 6 {
        Some(ExtendedSlot { piece: ChestPiece::Pawn, color: PlayerColor::Black })
    } else if p.0 == 7 {
        Some(ExtendedSlot { piece: back_rank(PlayerColor::Black, p.1), color: PlayerColor::Black })
    } else {
        None
    }
}

/// The starting layout: sixteen pieces a side on the two rows nearest to it.
pub open spec fn initial_position() -> Map<Square, ExtendedSlot> {
    Map::new(|p: Square| initial_cell(p) is Some, |p: Square| initial_cell(p)->0)
}

/// How many of the first `cols` cells of row `row` hold exactly `slot`.
pub open spec fn count_in_row(position: Map<Square, ExtendedSlot>, slot: ExtendedSlot, row: int, cols: int) -> nat
    decreases cols,
{
    if cols <= 0 {
        0
    } else {
        count_in_row(position, slot, row, cols - 1) + if position.get((row, cols - 1)) == Some(
            slot,
        ) {
            1nat
        } else {
            0nat
        }
    }
}

/// How many cells of the first `rows` rows hold exactly `slot`.
pub open spec fn count_in_rows(position: Map<Square, ExtendedSlot>, slot: ExtendedSlot, rows: int) -> nat
    decreases rows,
{
    if rows <= 0 {
        0
    } else {
        count_in_rows(position, slot, rows - 1) + count_in_row(position, slot, rows - 1, 8)
    }
}

/// How many pieces of kind `piece` the side `color` has in `position`.
pub open spec fn census(position: Map<Square, ExtendedSlot>, piece: ChestPiece, color: PlayerColor) -> nat {
    count_in_rows(position, ExtendedSlot { piece, color }, 8)
}

/// The row on which a side's pawns start.
pub open spec fn pawn_rank(color: PlayerColor) -> int {
    if color == PlayerColor::White {
        1
    } else {
        6
    }
}

/// The row on which a side's other pieces start.
pub open spec fn home_rank(color: PlayerColor) -> int {
    if color == PlayerColor::White {
        0
    } else {
        7
    }
}

proof fn lemma_initial_row_counts(slot: ExtendedSlot, row: int)
    requires
        0 <= row < 8,
    ensures
        count_in_row(initial_position(), slot, row, 8) == (if initial_cell((row, 0)) == Some(slot) {
            1nat
        } else {
            0nat
        }) + (if initial_cell((row, 1)) == Some(slot) {
            1nat
        } else {
            0nat
        }) + (if initial_cell((row, 2)) == Some(slot) {
            1nat
        } else {
            0nat
        }) + (if initial_cell((row, 3)) == Some(slot) {
            1nat
        } else {
            0nat
        }) + (if initial_cell((row, 4)) == Some(slot) {
            1nat
        } else {
            0nat
        }) + (if initial_cell((row, 5)) == Some(slot) {
            1nat
        } else {
            0nat
        }) + (if initial_cell((row, 6)) == Some(slot) {
            1nat
        } else {
            0nat
        }) + (if initial_cell((row, 7)) == Some(slot) {
            1nat
        } else {
            0nat
        }),
{
    reveal_with_fuel(count_in_row, 9);
    assert forall|c: int| 0 <= c < 8 implies #[trigger] initial_position().get((row, c))
        == initial_cell((row, c)) by {}
}

/// In the starting layout each side has its eight pawns on its pawn rank,
/// its other eight pieces on its home rank, and among its sixteen exactly
/// one king, one queen, one knight, one scout, two rooks and two bishops.
pub proof fn lemma_initial_census(color: PlayerColor)
    ensures
        forall|col: int|
            0 <= col < 8 ==> #[trigger] initial_position().get((pawn_rank(color), col)) == Some(
                ExtendedSlot { piece: ChestPiece::Pawn, color },
            ),
        forall|col: int|
            0 <= col < 8 ==> #[trigger] initial_position().get((home_rank(color), col)) == Some(
                ExtendedSlot { piece: back_rank(color, col), color },
            ),
        census(initial_position(), ChestPiece::Pawn, color) == 8,
        census(initial_position(), ChestPiece::King, color) == 1,
        census(initial_position(), ChestPiece::Queen, color) == 1,
        census(initial_position(), ChestPiece::Knight, color) == 1,
        census(initial_position(), ChestPiece::Scout, color) == 1,
        census(initial_position(), ChestPiece::Rook, color) == 2,
        census(initial_position(), ChestPiece::Bishop, color) == 2,
{
    reveal_with_fuel(count_in_rows, 9);
    assert forall|slot: ExtendedSlot, row: int| 0 <= row < 8 implies #[trigger] count_in_row(
        initial_position(),
        slot,
        row,
        8,
    ) == (if initial_cell((row, 0)) == Some(slot) {
        1nat
    } else {
        0nat
    }) + (if initial_cell((row, 1)) == Some(slot) {
        1nat
    } else {
        0nat
    }) + (if initial_cell((row, 2)) == Some(slot) {
        1nat
    } else {
        0nat
    }) + (if initial_cell((row, 3)) == Some(slot) {
        1nat
    } else {
        0nat
    }) + (if initial_cell((row, 4)) == Some(slot) {
        1nat
    } else {
        0nat
    }) + (if initial_cell((row, 5)) == Some(slot) {
        1nat
    } else {
        0nat
    }) + (if initial_cell((row, 6)) == Some(slot) {
        1nat
    } else {
        0nat
    }) + (if initial_cell((row, 7)) == Some(slot) {
        1nat
    } else {
        0nat
    }) by {
        lemma_initial_row_counts(slot, row);
    }
}

/// Why a move is refused.
#[derive(Debug, Clone, Copy, PartialEq, Eq, Hash, Structural)]
pub enum MoveError {
    InvalidCoordinates,
    NoPieceAtSource,
    NotYourPiece,
    InvalidMove,
    ScoutCapture,
    OwnPieceCapture,
}

impl MoveError {
    /// The reason as the player reads it.
    pub open spec fn text(self) -> Seq<char> {
        match self {
            MoveError::InvalidCoordinates => "Invalid coordinates"@,
            MoveError::NoPieceAtSource => "No piece at source position"@,
            MoveError::NotYourPiece => "Not your piece"@,
            MoveError::InvalidMove => "Invalid move for this piece"@,
            MoveError::ScoutCapture => "Scouts cannot capture pieces"@,
            MoveError::OwnPieceCapture => "Cannot capture your own piece"@,
        }
    }

    /// The reason as the player reads it, as an owned string.
    pub fn message(&self) -> (msg: String)
        ensures
            msg@ == self.text(),
    {
        match self {
            MoveError::InvalidCoordinates => "Invalid coordinates".to_string(),
            MoveError::NoPieceAtSource => "No piece at source position".to_string(),
            MoveError::NotYourPiece => "Not your piece".to_string(),
            MoveError::InvalidMove => "Invalid move for this piece".to_string(),
            MoveError::ScoutCapture => "Scouts cannot capture pieces".to_string(),
            MoveError::OwnPieceCapture => "Cannot capture your own piece".to_string(),
        }
    }
}

impl ExtendedBoard {
    /// A board with no piece on it.
    pub fn new() -> (board: Self)
        ensures
            board@ == Map::<Square, ExtendedSlot>::empty(),
    {
        let board = Self { slots: [[None; 8]; 8] };
        assert(board@ =~= Map::<Square, ExtendedSlot>::empty());
        board
    }

    /// Clears the board and sets up the starting layout.
    pub fn setup_initial_position(&mut self)
        ensures
            final(self)@ == initial_position(),
    {
        self.slots = [[None; 8]; 8];
        let white_pieces = [
            ChestPiece::Rook,
            ChestPiece::Knight,
            ChestPiece::Bishop,
            ChestPiece::Queen,
            ChestPiece::King,
            ChestPiece::Bishop,
            ChestPiece::Scout,
            ChestPiece::Rook,
        ];
        let black_pieces = [
            ChestPiece::Rook,
            ChestPiece::Scout,
            ChestPiece::Bishop,
            ChestPiece::Queen,
            ChestPiece::King,
            ChestPiece::Bishop,
            ChestPiece::Knight,
            ChestPiece::Rook,
        ];
        for col in 0..8usize
            invariant
                forall|c: int| 0 <= c < 8 ==> white_pieces[c] == back_rank(PlayerColor::White, c),
                forall|c: int| 0 <= c < 8 ==> black_pieces[c] == back_rank(PlayerColor::Black, c),
                forall|r: int, c: int|
                    0 <= r < 8 && 0 <= c < 8 ==> #[trigger] self.slots[r][c] == (if c < col {
                        initial_cell((r, c))
                    } else {
                        None
                    }),
        {
            self.slots[1][col] = Some(
                ExtendedSlot { piece: ChestPiece::Pawn, color: PlayerColor::White },
            );
            self.slots[0][col] = Some(
                ExtendedSlot { piece: white_pieces[col], color: PlayerColor::White },
            );
            self.slots[6][col] = Some(
                ExtendedSlot { piece: ChestPiece::Pawn, color: PlayerColor::Black },
            );
            self.slots[7][col] = Some(
                ExtendedSlot { piece: black_pieces[col], color: PlayerColor::Black },
            );
        }
        assert(self@ =~= initial_position());
    }
    /// True of a cell of the board that holds no piece.
    pub open spec fn vacant(&self, p: Square) -> bool {
        on_board(p) && !self@.contains_key(p)
    }

    /// True when `to` is aligned with `from` and every cell strictly between
    /// the two is on the board and empty.
    pub open spec fn path_clear(&self, from: Square, to: Square) -> bool {
        &&& aligned(from, to)
        &&& forall|k: int| 1 <= k < reach(from, to) ==> self.vacant(#[trigger] waypoint(from, to, k))
    }

    /// The movement rule of `piece`'s kind for a move from `from` to `to`,
    /// both on the board. Whose piece stands on `to` is not this rule's
    /// business, except for a pawn.
    pub open spec fn valid_move(&self, piece: ExtendedSlot, from: Square, to: Square) -> bool {
        let rows = span(from.0, to.0);
        let cols = span(from.1, to.1);
        &&& on_board(from)
        &&& on_board(to)
        &&& match piece.piece {
            ChestPiece::Pawn => {
                &&& to.0 - from.0 == piece.color.forward()
                &&& if cols == 0 {
                    !self@.contains_key(to)
                } else {
                    cols == 1 && self@.contains_key(to)
                }
            },
            ChestPiece::Scout => 1 <= rows * rows + cols * cols <= 4,
            ChestPiece::Rook => (rows == 0 || cols == 0) && self.path_clear(from, to),
            ChestPiece::Knight => (rows == 2 && cols == 1) || (rows == 1 && cols == 2),
            ChestPiece::Bishop => rows == cols && self.path_clear(from, to),
            ChestPiece::Queen => self.path_clear(from, to),
            ChestPiece::King => rows <= 1 && cols <= 1 && (rows != 0 || cols != 0),
        }
    }

    /// The first rule that a move by `color` from `from` to `to` breaks, or
    /// `None` for a legal move.
    pub open spec fn rejection(&self, from: Square, to: Square, color: PlayerColor) -> Option<
        MoveError,
    > {
        if !on_board(from) || !on_board(to) {
            Some(MoveError::InvalidCoordinates)
        } else if !self@.contains_key(from) {
            Some(MoveError::NoPieceAtSource)
        } else if self@[from].color != color {
            Some(MoveError::NotYourPiece)
        } else if !self.valid_move(self@[from], from, to) {
            Some(MoveError::InvalidMove)
        } else if self@[from].piece == ChestPiece::Scout && self@.contains_key(to) {
            Some(MoveError::ScoutCapture)
        } else if self@.contains_key(to) && self@[to].color == color {
            Some(MoveError::OwnPieceCapture)
        } else {
            None
        }
    }

    /// True when `to` is aligned with `from` and nothing stands, and no cell
    /// is off the board, strictly between the two.
    pub fn is_path_clear(&self, from: (usize, usize), to: (usize, usize)) -> (clear: bool)
        ensures
            clear == self.path_clear(square(from), square(to)),
    {
        let rows = gap(from.0, to.0);
        let cols = gap(from.1, to.1);
        if rows != 0 && cols != 0 && rows != cols {
            return false;
        }
        let steps = if rows >= cols {
            rows
        } else {
            cols
        };
        let mut k: usize = 1;
        while k < steps
            invariant
                1 <= k,
                rows == span(from.0 as int, to.0 as int),
                cols == span(from.1 as int, to.1 as int),
                aligned(square(from), square(to)),
                steps == reach(square(from), square(to)),
                forall|j: int|
                    1 <= j < k ==> self.vacant(#[trigger] waypoint(square(from), square(to), j)),
            decreases steps - k,
        {
            let row = step_toward(from.0, to.0, k);
            let col = step_toward(from.1, to.1, k);
            if row >= 8 || col >= 8 || self.slots[row][col].is_some() {
                assert(!self.vacant(waypoint(square(from), square(to), k as int)));
                return false;
            }
            k += 1;
        }
        true
    }

    /// True when `piece_info`'s kind may move from `from` to `to` on this
    /// board. False whenever a coordinate is off the board.
    pub fn is_valid_move(&self, piece_info: &ExtendedSlot, from: (usize, usize), to: (
        usize,
        usize,
    )) -> (valid: bool)
        ensures
            valid == self.valid_move(*piece_info, square(from), square(to)),
    {
        if from.0 >= 8 || from.1 >= 8 || to.0 >= 8 || to.1 >= 8 {
            return false;
        }
        let rows = gap(from.0, to.0);
        let cols = gap(from.1, to.1);
        match piece_info.piece {
            ChestPiece::Pawn => {
                let advances = match piece_info.color {
                    PlayerColor::White => to.0 == from.0 + 1,
                    PlayerColor::Black => to.0 + 1 == from.0,
                };
                if !advances {
                    false
                } else if cols == 0 {
                    self.slots[to.0][to.1].is_none()
                } else if cols == 1 {
                    self.slots[to.0][to.1].is_some()
                } else {
                    false
                }
            },
            ChestPiece::Scout => {
                assert(rows * rows <= 49 && cols * cols <= 49) by (nonlinear_arith)
                    requires
                        rows <= 7,
                        cols <= 7,
                ;
                let far = rows * rows + cols * cols;
                1 <= far && far <= 4
            },
            ChestPiece::Rook => (rows == 0 || cols == 0) && self.is_path_clear(from, to),
            ChestPiece::Knight => (rows == 2 && cols == 1) || (rows == 1 && cols == 2),
            ChestPiece::Bishop => rows == cols && self.is_path_clear(from, to),
            ChestPiece::Queen => (rows == 0 || cols == 0 || rows == cols) && self.is_path_clear(
                from,
                to,
            ),
            ChestPiece::King => rows <= 1 && cols <= 1 && (rows != 0 || cols != 0),
        }
    }

    /// The first rule that the move breaks, if it breaks one.
    pub fn check_move(&self, from: (usize, usize), to: (usize, usize), player_color: &PlayerColor) -> (r: Option<MoveError>)
        ensures
            r == self.rejection(square(from), square(to), *player_color),
    {
        if from.0 >= 8 || from.1 >= 8 || to.0 >= 8 || to.1 >= 8 {
            return Some(MoveError::InvalidCoordinates);
        }
        let piece_info = match self.slots[from.0][from.1] {
            Some(slot) => slot,
            None => {
                return Some(MoveError::NoPieceAtSource);
            },
        };
        if piece_info.color != *player_color {
            return Some(MoveError::NotYourPiece);
        }
        if !self.is_valid_move(&piece_info, from, to) {
            return Some(MoveError::InvalidMove);
        }
        if piece_info.piece == ChestPiece::Scout {
            if self.slots[to.0][to.1].is_some() {
                return Some(MoveError::ScoutCapture);
            }
        }
        if let Some(dest_piece) = self.slots[to.0][to.1] {
            if dest_piece.color == *player_color {
                return Some(MoveError::OwnPieceCapture);
            }
        }
        None
    }

    /// True when no rule refuses the move.
    pub fn is_legal_move(&self, from: (usize, usize), to: (usize, usize), player_color: &PlayerColor) -> (legal: bool)
        ensures
            legal == (self.rejection(square(from), square(to), *player_color) is None),
    {
        self.check_move(from, to, player_color).is_none()
    }

    /// Moves the occupant of `from` to `to`, replacing whatever stood there.
    pub fn execute_move(&mut self, from: (usize, usize), to: (usize, usize))
        requires
            on_board(square(from)),
            on_board(square(to)),
            old(self)@.contains_key(square(from)),
        ensures
            final(self)@ == old(self)@.remove(square(from)).insert(
                square(to),
                old(self)@[square(from)],
            ),
    {
        let piece_info = self.slots[from.0][from.1];
        self.slots[from.0][from.1] = None;
        self.slots[to.0][to.1] = piece_info;
        assert(self@ =~= old(self)@.remove(square(from)).insert(
            square(to),
            old(self)@[square(from)],
        ));
    }

    /// Plays a move for `player_color` if it is legal; otherwise leaves the
    /// board as it was and says which rule refused the move.
    pub fn make_move(&mut self, from: (usize, usize), to: (usize, usize), player_color: &PlayerColor) -> (result: Result<(), String>)
        ensures
            match old(self).rejection(square(from), square(to), *player_color) {
                Some(e) => {
                    &&& result matches Err(msg)
                    &&& msg@ == e.text()
                    &&& *final(self) == *old(self)
                },
                None => {
                    &&& result is Ok
                    &&& final(self)@ == old(self)@.remove(square(from)).insert(
                        square(to),
                        old(self)@[square(from)],
                    )
                },
            },
    {
        match self.check_move(from, to, player_color) {
            Some(e) => Err(e.message()),
            None => {
                self.execute_move(from, to);
                Ok(())
            },
        }
    }
}

/// Two boards with the same occupants on the same cells are the same board:
/// a contract that fixes a board's view fixes the board.
pub proof fn lemma_view_determines_board(a: ExtendedBoard, b: ExtendedBoard)
    requires
        a@ == b@,
    ensures
        a == b,
{
    assert forall|r: int, c: int| 0 <= r < 8 && 0 <= c < 8 implies a.slots[r][c]
        == b.slots[r][c] by {
        let p = (r, c);
        assert(on_board(p));
        assert(a@.contains_key(p) <==> a.slots[r][c] is Some);
        assert(b@.contains_key(p) <==> b.slots[r][c] is Some);
        if a@.contains_key(p) {
            assert(a@[p] == a.slots[r][c]->0);
            assert(b@[p] == b.slots[r][c]->0);
        }
    }
    assert forall|r: int| 0 <= r < 8 implies a.slots[r] == b.slots[r] by {
        assert(a.slots[r] =~= b.slots[r]);
    }
    assert(a.slots =~= b.slots);
}

} // verus!
