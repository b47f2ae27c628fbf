use vstd::prelude::*;

use crate::board::{Board, Grid};
use crate::piece::{Piece, PieceData};
use crate::types::{Color, Position};
use crate::utils::{step_moves, step_targets};

verus! {

/// The eight L-shaped offsets of a knight.
pub open spec fn knight_steps() -> Seq<(i8, i8)> {
    seq![(2i8, 1i8), (2i8, -1i8), (-2i8, 1i8), (-2i8, -1i8), (1i8, 2i8), (1i8, -2i8), (-1i8, 2i8), (-1i8, -2i8)]
}

fn steps() -> (r: Vec<(i8, i8)>)
    ensures
        r@ == knight_steps(),
{
    let r: Vec<(i8, i8)> = vec![(2, 1), (2, -1), (-2, 1), (-2, -1), (1, 2), (1, -2), (-1, 2), (-1, -2)];
    assert(r@ =~= knight_steps());
    r
}

/// The squares a knight of `color` on `pos` may move to, before king safety.
pub open spec fn knight_targets(g: Grid, pos: Position, color: Color) -> Seq<Position> {
    step_targets(g, pos, knight_steps(), color)
}

/// Movement state of a knight.
#[derive(Clone, Copy, PartialEq, Eq, Structural, Debug)]
pub struct KnightData {
    pub has_moved: bool,
}

impl KnightData {
    pub fn candidate_moves(&self, pos: Position, color: Color, board: &Board) -> (r: Vec<Position>)
        requires
            board.wf(),
        ensures
            r@ == knight_targets(board.grid(), pos, color),
    {
        let d = steps();
        step_moves(board, pos, d.as_slice(), color)
    }

    pub fn moved(&mut self)
        ensures
            final(self).has_moved,
    {
        self.has_moved = true;
    }
}

/// A knight of the given side on `pos` that has not moved yet.
pub fn new(pos: Position, color: Color) -> (r: Piece)
    ensures
        r == (Piece { color, pos, data: PieceData::Knight(KnightData { has_moved: false }) }),
{
    Piece { color, pos, data: PieceData::Knight(KnightData { has_moved: false }) }
}

} // verus!
