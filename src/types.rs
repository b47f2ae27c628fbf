use vstd::prelude::*;

verus! {

/// The side a piece belongs to.
#[derive(Clone, Copy, PartialEq, Eq, Structural, Debug)]
pub enum Color {
    White,
    Black,
}

impl Color {
    /// The other side.
    pub open spec fn other(self) -> Color {
        match self {
            Color::White => Color::Black,
            Color::Black => Color::White,
        }
    }

    pub fn opponent(&self) -> (r: Color)
        ensures
            r == self.other(),
    {
        match self {
            Color::White => Color::Black,
            Color::Black => Color::White,
        }
    }
}

impl Default for Color {
    /// White moves first.
    fn default() -> (r: Color)
        ensures
            r == Color::White,
    {
        Color::White
    }
}

/// What a piece is, for the rules that depend on its identity.
#[derive(Clone, Copy, PartialEq, Eq, Structural, Debug)]
pub enum Name {
    Pawn,
    Knight,
    Rook,
    Bishop,
    King,
    Queen,
}

/// A square of the board: `row` and `col` address it when both are below 8.
#[derive(Clone, Copy, PartialEq, Eq, Structural, Debug)]
pub struct Position {
    pub row: usize,
    pub col: usize,
}

/// Whether a pair of signed coordinates addresses a square of the board.
pub open spec fn on_board(row: int, col: int) -> bool {
    0 <= row < 8 && 0 <= col < 8
}

impl Position {
    pub open spec fn valid(self) -> bool {
        on_board(self.row as int, self.col as int)
    }

    /// The cell number of a square in row-major order.
    pub open spec fn index(self) -> int {
        self.row * 8 + self.col
    }

    /// The square `dx` columns and `dy` rows away, if it is on the board.
    pub open spec fn offset(self, dx: int, dy: int) -> Option<Position> {
        let r = self.row + dy;
        let c = self.col + dx;
        if on_board(r, c) {
            Some(Position { row: r as usize, col: c as usize })
        } else {
            None
        }
    }

    pub fn is_valid(row: i8, col: i8) -> (r: bool)
        ensures
            r == on_board(row as int, col as int),
    {
        0 <= row && row < 8 && 0 <= col && col < 8
    }

    pub fn shifted(&self, dx: i8, dy: i8) -> (r: Option<Position>)
        ensures
            r == self.offset(dx as int, dy as int),
    {
        // A coordinate this far out stays off the board for any `i8` shift.
        if self.row > 200 || self.col > 200 {
            return None;
        }
        let ri: i16 = self.row as i16 + dy as i16;
        let ci: i16 = self.col as i16 + dx as i16;
        if Position::is_valid_wide(ri, ci) {
            Some(Position { row: ri as usize, col: ci as usize })
        } else {
            None
        }
    }

    fn is_valid_wide(row: i16, col: i16) -> (r: bool)
        ensures
            r == on_board(row as int, col as int),
    {
        0 <= row && row < 8 && 0 <= col && col < 8
    }
}

} // verus!
