use vstd::prelude::*;

verus! {

/// The seven kinds of piece. How a piece moves and how far it sees depend on
/// its kind alone.
#[derive(Debug, Clone, Copy, PartialEq, Eq, Hash, Structural)]
pub enum ChestPiece {
    Pawn,
    Scout,
    Rook,
    Knight,
    Bishop,
    Queen,
    King,
}

/// The two sides of a game.
#[derive(Debug, Clone, Copy, PartialEq, Eq, Hash, Structural)]
pub enum PlayerColor {
    White,
    Black,
}

/// The occupant of a board cell: a piece and the side that owns it.
#[derive(Debug, Clone, Copy, PartialEq, Eq, Hash, Structural)]
pub struct ExtendedSlot {
    pub piece: ChestPiece,
    pub color: PlayerColor,
}

impl ChestPiece {
    /// The sight radius of a piece, in grid units: three for a scout, one for
    /// every other kind.
    pub open spec fn sight(self) -> int {
        if self == ChestPiece::Scout {
            3
        } else {
            1
        }
    }

    /// The sight radius of this piece.
    pub fn sight_range(&self) -> (range: usize)
        ensures
            range == self.sight(),
    {
        match self {
            ChestPiece::Scout => 3,
            _ => 1,
        }
    }

    /// The sign a piece is printed as.
    pub open spec fn symbol_text(self) -> Seq<char> {
        match self {
            ChestPiece::Pawn => "\u{265f}"@,
            ChestPiece::Scout => "\u{25ca}"@,
            ChestPiece::Rook => "\u{265c}"@,
            ChestPiece::Knight => "\u{265e}"@,
            ChestPiece::Bishop => "\u{265d}"@,
            ChestPiece::Queen => "\u{265b}"@,
            ChestPiece::King => "\u{265a}"@,
        }
    }

    /// The sign this piece is printed as.
    pub fn symbol(&self) -> (sign: &'static str)
        ensures
            sign@ == self.symbol_text(),
    {
        match self {
            ChestPiece::Pawn => "\u{265f}",
            ChestPiece::Scout => "\u{25ca}",
            ChestPiece::Rook => "\u{265c}",
            ChestPiece::Knight => "\u{265e}",
            ChestPiece::Bishop => "\u{265d}",
            ChestPiece::Queen => "\u{265b}",
            ChestPiece::King => "\u{265a}",
        }
    }
}

impl Default for ChestPiece {
    fn default() -> (piece: Self)
        ensures
            piece == ChestPiece::Pawn,
    {
        ChestPiece::Pawn
    }
}

impl PlayerColor {
    /// The name a side goes by on the wire.
    pub open spec fn name(self) -> Seq<char> {
        match self {
            PlayerColor::White => "white"@,
            PlayerColor::Black => "black"@,
        }
    }

    /// The name this side goes by on the wire.
    pub fn as_str(&self) -> (name: &'static str)
        ensures
            name@ == self.name(),
    {
        match self {
            PlayerColor::White => "white",
            PlayerColor::Black => "black",
        }
    }

    /// The row step of a pawn of this side: White's pawns climb, Black's
    /// descend.
    pub open spec fn forward(self) -> int {
        if self == PlayerColor::White {
            1
        } else {
            -1
        }
    }
}

} // verus!
