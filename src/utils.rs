use vstd::prelude::*;

use crate::board::{hostile, vacant, Board, Grid};
use crate::types::{Color, Position};

verus! {

/// The squares a piece of `color` reaches from `cur` walking in direction
/// `(dx, dy)`: empty squares, then the first enemy square, if any. A ray is
/// at most `fuel` squares long.
pub open spec fn ray(g: Grid, cur: Position, dx: int, dy: int, color: Color, fuel: nat) -> Seq<
    Position,
>
    decreases fuel,
{
    if fuel == 0 {
        Seq::empty()
    } else {
        match cur.offset(dx, dy) {
            None => Seq::empty(),
            Some(next) => if vacant(g, next) {
                seq![next] + ray(g, next, dx, dy, color, (fuel - 1) as nat)
            } else if hostile(g, next, color) {
                seq![next]
            } else {
                Seq::empty()
            },
        }
    }
}

/// The rays from `from` in each of `dirs`, in order. No ray on the board is
/// longer than seven squares.
pub open spec fn slide_targets(g: Grid, from: Position, dirs: Seq<(i8, i8)>, color: Color) -> Seq<
    Position,
>
    decreases dirs.len(),
{
    if dirs.len() == 0 {
        Seq::empty()
    } else {
        let d = dirs.last();
        slide_targets(g, from, dirs.drop_last(), color) + ray(
            g,
            from,
            d.0 as int,
            d.1 as int,
            color,
            7,
        )
    }
}

/// The squares at each offset of `deltas` from `from`, in order, that are on
/// the board and empty or held by an enemy.
pub open spec fn step_targets(g: Grid, from: Position, deltas: Seq<(i8, i8)>, color: Color) -> Seq<
    Position,
>
    decreases deltas.len(),
{
    if deltas.len() == 0 {
        Seq::empty()
    } else {
        let d = deltas.last();
        let prev = step_targets(g, from, deltas.drop_last(), color);
        match from.offset(d.0 as int, d.1 as int) {
            Some(t) => if vacant(g, t) || hostile(g, t, color) {
                prev.push(t)
            } else {
                prev
            },
            None => prev,
        }
    }
}

pub fn sliding_moves(board: &Board, from: Position, dirs: &[(i8, i8)], color: Color) -> (r: Vec<
    Position,
>)
    requires
        board.wf(),
    ensures
        r@ == slide_targets(board.grid(), from, dirs@, color),
{
    let mut moves: Vec<Position> = Vec::new();
    let mut i: usize = 0;
    while i < dirs.len()
        invariant
            board.wf(),
            i <= dirs@.len(),
            moves@ == slide_targets(board.grid(), from, dirs@.take(i as int), color),
        decreases dirs.len() - i,
    {
        let (dx, dy) = dirs[i];
        let ghost g = board.grid();
        let ghost before = moves@;
        let mut current = from;
        let mut fuel: usize = 7;
        while fuel > 0
            invariant
                board.wf(),
                g == board.grid(),
                moves@ + ray(g, current, dx as int, dy as int, color, fuel as nat) == before + ray(
                    g,
                    from,
                    dx as int,
                    dy as int,
                    color,
                    7,
                ),
            decreases fuel,
        {
            match current.shifted(dx, dy) {
                None => {
                    assert(moves@ + Seq::<Position>::empty() =~= moves@);
                    fuel = 0;
                },
                Some(next_pos) => {
                    if board.is_empty_cell(next_pos) {
                        assert(moves@ + ray(g, current, dx as int, dy as int, color, fuel as nat)
                            =~= moves@.push(next_pos) + ray(
                            g,
                            next_pos,
                            dx as int,
                            dy as int,
                            color,
                            (fuel - 1) as nat,
                        ));
                        moves.push(next_pos);
                        current = next_pos;
                        fuel = fuel - 1;
                    } else {
                        if board.is_enemy_cell(next_pos, color) {
                            assert(ray(g, current, dx as int, dy as int, color, fuel as nat)
                                == seq![next_pos]);
                            assert(moves@ + seq![next_pos] =~= moves@.push(next_pos));
                            moves.push(next_pos);
                        } else {
                            assert(ray(g, current, dx as int, dy as int, color, fuel as nat)
                                == Seq::<Position>::empty());
                            assert(moves@ + Seq::<Position>::empty() =~= moves@);
                        }
                        fuel = 0;
                    }
                },
            }
        }
        assert(dirs@.take(i + 1).drop_last() =~= dirs@.take(i as int));
        assert(dirs@.take(i + 1).last() == (dx, dy));
        assert(moves@ + ray(g, current, dx as int, dy as int, color, 0) =~= moves@);
        i = i + 1;
    }
    assert(dirs@.take(dirs@.len() as int) =~= dirs@);
    moves
}

pub fn step_moves(board: &Board, from: Position, deltas: &[(i8, i8)], color: Color) -> (r: Vec<
    Position,
>)
    requires
        board.wf(),
    ensures
        r@ == step_targets(board.grid(), from, deltas@, color),
{
    let mut moves: Vec<Position> = Vec::new();
    let mut i: usize = 0;
    while i < deltas.len()
        invariant
            board.wf(),
            i <= deltas@.len(),
            moves@ == step_targets(board.grid(), from, deltas@.take(i as int), color),
        decreases deltas.len() - i,
    {
        let (dx, dy) = deltas[i];
        assert(deltas@.take(i + 1).drop_last() =~= deltas@.take(i as int));
        if let Some(to) = from.shifted(dx, dy) {
            if board.is_empty_cell(to) || board.is_enemy_cell(to, color) {
                moves.push(to);
            }
        }
        i = i + 1;
    }
    assert(deltas@.take(deltas@.len() as int) =~= deltas@);
    moves
}

} // verus!
