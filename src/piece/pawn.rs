use vstd::prelude::*;

use crate::board::{hostile, occupant, vacant, Board, Grid};
use crate::piece::{Piece, PieceData};
use crate::types::{Color, Position};

verus! {

/// The row direction in which pawns of `color` advance.
pub open spec fn forward(color: Color) -> int {
    match color {
        Color::White => 1,
        Color::Black => -1,
    }
}

/// The row on which pawns of `color` start and may advance two squares.
pub open spec fn home_row(color: Color) -> int {
    match color {
        Color::White => 1,
        Color::Black => 6,
    }
}

/// Whether `sq` holds an enemy pawn that may be taken en passant by moving
/// to `target`.
pub open spec fn passant_victim(g: Grid, sq: Position, target: Position, color: Color) -> bool {
    match occupant(g, sq) {
        Some(q) => q.color != color && match q.data {
            PieceData::Pawn(d) => d.passant_target == Some(target),
            _ => false,
        },
        None => false,
    }
}

/// One step forward onto an empty square; from the home row, a second one
/// when that square is empty too.
pub open spec fn pawn_pushes(g: Grid, from: Position, color: Color) -> Seq<Position> {
    match from.offset(0, forward(color)) {
        Some(one) => if vacant(g, one) {
            match from.offset(0, 2 * forward(color)) {
                Some(two) => if from.row == home_row(color) && vacant(g, two) {
                    seq![one, two]
                } else {
                    seq![one]
                },
                None => seq![one],
            }
        } else {
            Seq::empty()
        },
        None => Seq::empty(),
    }
}

/// The diagonal step forward to the side `dx`: onto an enemy piece, or onto
/// the empty square that an enemy pawn beside this one passed over.
pub open spec fn pawn_capture(g: Grid, from: Position, dx: int, color: Color) -> Seq<Position> {
    match from.offset(dx, forward(color)) {
        Some(t) => if hostile(g, t, color) {
            seq![t]
        } else if vacant(g, t) && match from.offset(dx, 0) {
            Some(s) => passant_victim(g, s, t, color),
            None => false,
        } {
            seq![t]
        } else {
            Seq::empty()
        },
        None => Seq::empty(),
    }
}

/// The squares a pawn of `color` on `pos` may move to, before king safety.
pub open spec fn pawn_targets(g: Grid, pos: Position, color: Color) -> Seq<Position> {
    pawn_pushes(g, pos, color) + pawn_capture(g, pos, -1, color) + pawn_capture(g, pos, 1, color)
}

/// Whether a move from `from` to `to` is a pawn's two-square advance.
pub open spec fn is_double_step(from: Position, to: Position) -> bool {
    from.col == to.col && (from.row - to.row == 2 || to.row - from.row == 2)
}

/// The square between the two ends of a two-square advance.
pub open spec fn passed_square(from: Position, to: Position) -> Position {
    Position { row: ((from.row + to.row) / 2) as usize, col: from.col }
}

/// Movement state of a pawn. After a two-square advance, `passant_target`
/// holds the square it passed over, on which an enemy pawn may take it.
#[derive(Clone, Copy, PartialEq, Eq, Structural, Debug)]
pub struct PawnData {
    pub has_moved: bool,
    pub passant_target: Option<Position>,
}

fn forward_of(color: Color) -> (r: i8)
    ensures
        r as int == forward(color),
{
    match color {
        Color::White => 1,
        Color::Black => -1,
    }
}

fn capture_to(board: &Board, pos: Position, dx: i8, color: Color) -> (r: Option<Position>)
    requires
        board.wf(),
        dx == -1 || dx == 1,
    ensures
        r matches Some(t) ==> pawn_capture(board.grid(), pos, dx as int, color) == seq![t],
        r is None ==> pawn_capture(board.grid(), pos, dx as int, color) == Seq::<Position>::empty(),
{
    let t = pos.shifted(dx, forward_of(color))?;
    if board.is_enemy_cell(t, color) {
        return Some(t);
    }
    if !board.is_empty_cell(t) {
        return None;
    }
    let s = pos.shifted(dx, 0)?;
    match board.get(s) {
        Some(q) => {
            if q.color != color {
                if let PieceData::Pawn(d) = q.data {
                    if d.passant_target == Some(t) {
                        return Some(t);
                    }
                }
            }
            None
        },
        None => None,
    }
}

impl PawnData {
    pub fn candidate_moves(&self, pos: Position, color: Color, board: &Board) -> (r: Vec<Position>)
        requires
            board.wf(),
        ensures
            r@ == pawn_targets(board.grid(), pos, color),
    {
        let mut moves: Vec<Position> = Vec::new();
        let f = forward_of(color);
        if let Some(one) = pos.shifted(0, f) {
            if board.is_empty_cell(one) {
                moves.push(one);
                let home: usize = if f == 1 { 1 } else { 6 };
                if pos.row == home {
                    if let Some(two) = pos.shifted(0, 2 * f) {
                        if board.is_empty_cell(two) {
                            moves.push(two);
                        }
                    }
                }
            }
        }
        assert(moves@ =~= pawn_pushes(board.grid(), pos, color));
        let ghost pushes = moves@;
        if let Some(t) = capture_to(board, pos, -1, color) {
            moves.push(t);
        }
        assert(moves@ =~= pushes + pawn_capture(board.grid(), pos, -1, color));
        let ghost left = moves@;
        if let Some(t) = capture_to(board, pos, 1, color) {
            moves.push(t);
        }
        assert(moves@ =~= left + pawn_capture(board.grid(), pos, 1, color));
        moves
    }

    /// Marks the pawn as moved, and records the square it passed over when
    /// the move was a two-square advance.
    pub fn on_move(&mut self, from: Position, to: Position)
        ensures
            final(self).has_moved,
            final(self).passant_target == (if is_double_step(from, to) {
                Some(passed_square(from, to))
            } else {
                None
            }),
    {
        self.has_moved = true;
        if from.col == to.col && to.row > from.row && to.row - from.row == 2 {
            self.passant_target = Some(Position { row: from.row + 1, col: from.col });
        } else if from.col == to.col && from.row > to.row && from.row - to.row == 2 {
            self.passant_target = Some(Position { row: to.row + 1, col: from.col });
        } else {
            self.passant_target = None;
        }
    }
}

/// A pawn of the given side on `pos` that has not moved yet.
pub fn new(pos: Position, color: Color) -> (r: Piece)
    ensures
        r == (Piece {
            color,
            pos,
            data: PieceData::Pawn(PawnData { has_moved: false, passant_target: None }),
        }),
{
    Piece { color, pos, data: PieceData::Pawn(PawnData { has_moved: false, passant_target: None }) }
}

} // verus!
