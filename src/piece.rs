pub mod bishop;
pub mod king;
pub mod knight;
pub mod pawn;
pub mod queen;
pub mod rook;

use vstd::prelude::*;

use crate::board::{occupant, Board, Grid};
use crate::piece::bishop::{bishop_targets, BishopData};
use crate::piece::king::{king_targets, KingData};
use crate::piece::knight::{knight_targets, KnightData};
use crate::piece::pawn::{is_double_step, passed_square, pawn_targets, PawnData};
use crate::piece::queen::{queen_targets, QueenData};
use crate::piece::rook::{rook_targets, RookData};
use crate::types::{Color, Name, Position};

verus! {

/// The movement state of a piece, one variant per kind.
#[derive(Clone, Copy, PartialEq, Eq, Structural, Debug)]
pub enum PieceData {
    Pawn(PawnData),
    Knight(KnightData),
    Bishop(BishopData),
    Rook(RookData),
    Queen(QueenData),
    King(KingData),
}

/// A piece: its side, the square it was last placed on, and its kind with
/// that kind's movement state.
#[derive(Clone, Copy, PartialEq, Eq, Structural, Debug)]
pub struct Piece {
    pub color: Color,
    pub pos: Position,
    pub data: PieceData,
}

impl PieceData {
    pub open spec fn kind(self) -> Name {
        match self {
            PieceData::Pawn(_) => Name::Pawn,
            PieceData::Knight(_) => Name::Knight,
            PieceData::Bishop(_) => Name::Bishop,
            PieceData::Rook(_) => Name::Rook,
            PieceData::Queen(_) => Name::Queen,
            PieceData::King(_) => Name::King,
        }
    }
}

/// The squares the piece on `from` may move to by its own movement rule,
/// before king safety; nothing for an empty square.
pub open spec fn candidates(g: Grid, from: Position) -> Seq<Position> {
    match occupant(g, from) {
        Some(p) => p.data.targets(g, from, p.color),
        None => Seq::empty(),
    }
}

impl PieceData {
    /// The squares a piece of this kind and of `color` on `pos` may move to,
    /// before king safety.
    pub open spec fn targets(self, g: Grid, pos: Position, color: Color) -> Seq<Position> {
        match self {
            PieceData::Pawn(_) => pawn_targets(g, pos, color),
            PieceData::Knight(_) => knight_targets(g, pos, color),
            PieceData::Bishop(_) => bishop_targets(g, pos, color),
            PieceData::Rook(_) => rook_targets(g, pos, color),
            PieceData::Queen(_) => queen_targets(g, pos, color),
            PieceData::King(_) => king_targets(g, pos, color),
        }
    }

    /// The movement state after a move from `from` to `to`.
    pub open spec fn after_move(self, from: Position, to: Position) -> PieceData {
        match self {
            PieceData::Pawn(_) => PieceData::Pawn(
                PawnData {
                    has_moved: true,
                    passant_target: if is_double_step(from, to) {
                        Some(passed_square(from, to))
                    } else {
                        None
                    },
                },
            ),
            PieceData::Knight(_) => PieceData::Knight(KnightData { has_moved: true }),
            PieceData::Bishop(_) => PieceData::Bishop(BishopData { has_moved: true }),
            PieceData::Rook(_) => PieceData::Rook(RookData { has_moved: true }),
            PieceData::Queen(_) => PieceData::Queen(QueenData { has_moved: true }),
            PieceData::King(_) => PieceData::King(KingData { has_moved: true }),
        }
    }

    pub fn candidate_moves(&self, pos: Position, color: Color, board: &Board) -> (r: Vec<Position>)
        requires
            board.wf(),
        ensures
            r@ == self.targets(board.grid(), pos, color),
    {
        match self {
            PieceData::Pawn(d) => d.candidate_moves(pos, color, board),
            PieceData::Knight(d) => d.candidate_moves(pos, color, board),
            PieceData::Bishop(d) => d.candidate_moves(pos, color, board),
            PieceData::Rook(d) => d.candidate_moves(pos, color, board),
            PieceData::Queen(d) => d.candidate_moves(pos, color, board),
            PieceData::King(d) => d.candidate_moves(pos, color, board),
        }
    }

    /// Updates the movement state for a move from `from` to `to`.
    pub fn on_move(&mut self, from: Position, to: Position)
        ensures
            *final(self) == old(self).after_move(from, to),
    {
        match self {
            PieceData::Pawn(d) => d.on_move(from, to),
            PieceData::Knight(d) => d.moved(),
            PieceData::Bishop(d) => d.moved(),
            PieceData::Rook(d) => d.moved(),
            PieceData::Queen(d) => d.moved(),
            PieceData::King(d) => d.moved(),
        }
    }
}

impl Piece {
    pub fn name(&self) -> (r: Name)
        ensures
            r == self.data.kind(),
    {
        match self.data {
            PieceData::Pawn(_) => Name::Pawn,
            PieceData::Knight(_) => Name::Knight,
            PieceData::Bishop(_) => Name::Bishop,
            PieceData::Rook(_) => Name::Rook,
            PieceData::Queen(_) => Name::Queen,
            PieceData::King(_) => Name::King,
        }
    }
}

} // verus!
