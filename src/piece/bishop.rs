use vstd::prelude::*;

use crate::board::{Board, Grid};
use crate::piece::{Piece, PieceData};
use crate::types::{Color, Position};
use crate::utils::{sliding_moves, slide_targets};

verus! {

/// The diagonal directions.
pub open spec fn bishop_dirs() -> Seq<(i8, i8)> {
    seq![(1i8, 1i8), (-1i8, -1i8), (-1i8, 1i8), (1i8, -1i8)]
}

fn dirs() -> (r: Vec<(i8, i8)>)
    ensures
        r@ == bishop_dirs(),
{
    let r: Vec<(i8, i8)> = vec![(1, 1), (-1, -1), (-1, 1), (1, -1)];
    assert(r@ =~= bishop_dirs());
    r
}

/// The squares a bishop of `color` on `pos` may move to, before king safety.
pub open spec fn bishop_targets(g: Grid, pos: Position, color: Color) -> Seq<Position> {
    slide_targets(g, pos, bishop_dirs(), color)
}

/// Movement state of a bishop.
#[derive(Clone, Copy, PartialEq, Eq, Structural, Debug)]
pub struct BishopData {
    pub has_moved: bool,
}

impl BishopData {
    pub fn candidate_moves(&self, pos: Position, color: Color, board: &Board) -> (r: Vec<Position>)
        requires
            board.wf(),
        ensures
            r@ == bishop_targets(board.grid(), pos, color),
    {
        let d = dirs();
        sliding_moves(board, pos, d.as_slice(), color)
    }

    pub fn moved(&mut self)
        ensures
            final(self).has_moved,
    {
        self.has_moved = true;
    }
}

/// A bishop of the given side on `pos` that has not moved yet.
pub fn new(pos: Position, color: Color) -> (r: Piece)
    ensures
        r == (Piece { color, pos, data: PieceData::Bishop(BishopData { has_moved: false }) }),
{
    Piece { color, pos, data: PieceData::Bishop(BishopData { has_moved: false }) }
}

} // verus!
