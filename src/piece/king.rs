use vstd::prelude::*;

use crate::board::{Board, Grid};
use crate::piece::{Piece, PieceData};
use crate::types::{Color, Position};
use crate::utils::{step_moves, step_targets};

verus! {

/// The eight offsets to the adjacent squares.
pub open spec fn king_steps() -> Seq<(i8, i8)> {
    seq![(1i8, 0i8), (-1i8, 0i8), (0i8, 1i8), (0i8, -1i8), (1i8, 1i8), (-1i8, -1i8), (-1i8, 1i8), (1i8, -1i8)]
}

fn steps() -> (r: Vec<(i8, i8)>)
    ensures
        r@ == king_steps(),
{
    let r: Vec<(i8, i8)> = vec![(1, 0), (-1, 0), (0, 1), (0, -1), (1, 1), (-1, -1), (-1, 1), (1, -1)];
    assert(r@ =~= king_steps());
    r
}

/// The squares a king of `color` on `pos` may move to, before king safety.
pub open spec fn king_targets(g: Grid, pos: Position, color: Color) -> Seq<Position> {
    step_targets(g, pos, king_steps(), color)
}

/// Movement state of a king.
#[derive(Clone, Copy, PartialEq, Eq, Structural, Debug)]
pub struct KingData {
    pub has_moved: bool,
}

impl KingData {
    pub fn candidate_moves(&self, pos: Position, color: Color, board: &Board) -> (r: Vec<Position>)
        requires
            board.wf(),
        ensures
            r@ == king_targets(board.grid(), pos, color),
    {
        let d = steps();
        step_moves(board, pos, d.as_slice(), color)
    }

    pub fn moved(&mut self)
        ensures
            final(self).has_moved,
    {
        self.has_moved = true;
    }
}

/// A king of the given side on `pos` that has not moved yet.
pub fn new(pos: Position, color: Color) -> (r: Piece)
    ensures
        r == (Piece { color, pos, data: PieceData::King(KingData { has_moved: false }) }),
{
    Piece { color, pos, data: PieceData::King(KingData { has_moved: false }) }
}

} // verus!
