use vstd::prelude::*;

use crate::piece::pawn::PawnData;
use crate::piece::{candidates, Piece, PieceData};
use crate::types::{Color, Name, Position, on_board};

verus! {

/// The 64 cells of a board in row-major order.
pub type Grid = Seq<Option<Piece>>;

/// The square of cell number `i`.
pub open spec fn square_of(i: int) -> Position {
    Position { row: (i / 8) as usize, col: (i % 8) as usize }
}

/// What stands on `p`; nothing for a square off the board.
pub open spec fn occupant(g: Grid, p: Position) -> Option<Piece> {
    if p.valid() {
        g[p.index()]
    } else {
        None
    }
}

pub open spec fn vacant(g: Grid, p: Position) -> bool {
    occupant(g, p) is None
}

/// Whether `p` holds a piece of the side opposed to `color`.
pub open spec fn hostile(g: Grid, p: Position, color: Color) -> bool {
    match occupant(g, p) {
        Some(q) => q.color != color,
        None => false,
    }
}

/// A board with no piece on it.
pub open spec fn empty_grid() -> Grid {
    Seq::new(64, |i: int| None)
}

/// `g` with `cell` put on `p`, or `g` itself when `p` is off the board.
pub open spec fn placed(g: Grid, p: Position, cell: Option<Piece>) -> Grid {
    if p.valid() {
        g.update(p.index(), cell)
    } else {
        g
    }
}

/// Whether `cell` holds the king of `color`.
pub open spec fn is_king_of(cell: Option<Piece>, color: Color) -> bool {
    match cell {
        Some(p) => p.color == color && p.data is King,
        None => false,
    }
}

/// Whether cell `i` holds the first king of `color` in row-major order.
pub open spec fn first_king_at(g: Grid, color: Color, i: int) -> bool {
    &&& 0 <= i < 64
    &&& is_king_of(g[i], color)
    &&& forall|j: int| 0 <= j < i ==> !is_king_of(#[trigger] g[j], color)
}

/// The square of the king of `color`: the first in row-major order, should
/// there be more than one.
pub open spec fn king_square(g: Grid, color: Color) -> Option<Position> {
    if exists|i: int| first_king_at(g, color, i) {
        Some(square_of(choose|i: int| first_king_at(g, color, i)))
    } else {
        None
    }
}

/// Whether cell `i` holds a piece of side `by` whose movement rule reaches `sq`.
pub open spec fn attacker(g: Grid, i: int, sq: Position, by: Color) -> bool {
    &&& 0 <= i < 64
    &&& g[i] matches Some(p) && p.color == by
    &&& candidates(g, square_of(i)).contains(sq)
}

/// Whether some piece of side `by` reaches `sq` by its movement rule.
pub open spec fn attacked(g: Grid, sq: Position, by: Color) -> bool {
    exists|i: int| attacker(g, i, sq, by)
}

/// Whether the king of `color` is attacked by the other side. A board
/// without such a king holds no check against it: the king-safety filter
/// lets every move stand there.
pub open spec fn in_check(g: Grid, color: Color) -> bool {
    match king_square(g, color) {
        Some(k) => attacked(g, k, color.other()),
        None => false,
    }
}

/// `cell` with its en passant mark removed, when it holds a pawn of `color`.
pub open spec fn cleared(cell: Option<Piece>, color: Color) -> Option<Piece> {
    match cell {
        Some(p) => match p.data {
            PieceData::Pawn(d) => if p.color == color {
                Some(
                    Piece {
                        data: PieceData::Pawn(PawnData { has_moved: d.has_moved, passant_target: None }),
                        ..p
                    },
                )
            } else {
                cell
            },
            _ => cell,
        },
        None => None,
    }
}

/// `g` with the en passant marks of every pawn of `color` removed.
pub open spec fn without_passants(g: Grid, color: Color) -> Grid {
    Seq::new(g.len(), |i: int| cleared(g[i], color))
}

/// The board after the piece on `from` moves to `to`, legal or not: a pawn
/// moving diagonally onto an empty square takes the pawn beside it (en
/// passant), whatever stood on `to` is captured, the mover's state is
/// updated and its square recorded, and the other side's en passant marks
/// expire. An empty `from` leaves the board as it is.
pub open spec fn executed(g: Grid, from: Position, to: Position) -> Grid {
    match occupant(g, from) {
        Some(p) => {
            let g1 = if p.data is Pawn && from.col != to.col && vacant(g, to) {
                placed(g, Position { row: from.row, col: to.col }, None)
            } else {
                g
            };
            let mover = Piece { color: p.color, pos: to, data: p.data.after_move(from, to) };
            without_passants(placed(placed(g1, from, None), to, Some(mover)), p.color.other())
        },
        None => g,
    }
}

/// Whether the king of `color` is out of check once the piece on `from` has
/// moved to a given destination.
pub open spec fn safe_for(g: Grid, from: Position, color: Color) -> spec_fn(Position) -> bool {
    |to: Position| !in_check(executed(g, from, to), color)
}

/// The legal destinations of the piece on `from`: those of its movement rule
/// after which its own king is not in check.
pub open spec fn legal_targets(g: Grid, from: Position) -> Seq<Position> {
    match occupant(g, from) {
        Some(p) => candidates(g, from).filter(safe_for(g, from, p.color)),
        None => Seq::empty(),
    }
}

/// Whether no piece of `color` has a legal destination.
pub open spec fn stuck(g: Grid, color: Color) -> bool {
    forall|i: int|
        0 <= i < 64 && (#[trigger] g[i] matches Some(p) && p.color == color) ==> legal_targets(
            g,
            square_of(i),
        ).len() == 0
}

pub open spec fn checkmated(g: Grid, color: Color) -> bool {
    in_check(g, color) && stuck(g, color)
}

pub open spec fn stalemated(g: Grid, color: Color) -> bool {
    !in_check(g, color) && stuck(g, color)
}

fn contains(v: &Vec<Position>, x: Position) -> (r: bool)
    ensures
        r == v@.contains(x),
{
    let mut i: usize = 0;
    while i < v.len()
        invariant
            i <= v@.len(),
            forall|j: int| 0 <= j < i ==> v@[j] != x,
        decreases v.len() - i,
    {
        if v[i] == x {
            return true;
        }
        i = i + 1;
    }
    false
}

fn square_at(i: usize) -> (r: Position)
    requires
        i < 64,
    ensures
        r == square_of(i as int),
        r.valid(),
        r.index() == i,
{
    Position { row: i / 8, col: i % 8 }
}

/// Placing a piece on a square of the board and then querying that square
/// gives back that exact piece; clearing it and querying gives nothing.
pub proof fn lemma_place_then_query(g: Grid, p: Position, piece: Piece)
    requires
        g.len() == 64,
        p.valid(),
    ensures
        occupant(placed(g, p, Some(piece)), p) == Some(piece),
        occupant(placed(placed(g, p, Some(piece)), p, None), p) is None,
{
}

/// A destination is legal exactly when the piece's movement rule reaches it
/// and its own king is out of check after the move.
pub proof fn lemma_legal_target(g: Grid, from: Position, to: Position)
    requires
        occupant(g, from) is Some,
    ensures
        legal_targets(g, from).contains(to) <==> candidates(g, from).contains(to) && !in_check(
            executed(g, from, to),
            occupant(g, from).unwrap().color,
        ),
{
    let color = occupant(g, from).unwrap().color;
    let cands = candidates(g, from);
    let pred = safe_for(g, from, color);
    if legal_targets(g, from).contains(to) {
        let k = choose|k: int| 0 <= k < cands.filter(pred).len() && cands.filter(pred)[k] == to;
        cands.lemma_filter_pred(pred, k);
        cands.lemma_filter_contains_rev(pred, to);
    }
    if cands.contains(to) && pred(to) {
        let i = choose|i: int| 0 <= i < cands.len() && cands[i] == to;
        cands.lemma_filter_contains(pred, i);
    }
}

pub proof fn lemma_square_of(i: int)
    requires
        0 <= i < 64,
    ensures
        square_of(i).valid(),
        square_of(i).index() == i,
{
}

/// Why a move was refused.
#[derive(Clone, Copy, PartialEq, Eq, Structural, Debug)]
pub enum MoveError {
    /// The source square holds no piece.
    NoPiece,
    /// The piece's movement rule does not reach the destination.
    Unreachable,
    /// The move would leave the mover's own king in check.
    ExposesKing,
}

/// A status query named a side that has no king on the board.
#[derive(Clone, Copy, PartialEq, Eq, Structural, Debug)]
pub struct MissingKing {
    pub color: Color,
}

/// An 8x8 board and the side to move.
#[derive(Clone, Debug)]
pub struct Board {
    squares: Vec<Option<Piece>>,
    pub turn: Color,
}

impl Default for Board {
    fn default() -> (r: Board)
        ensures
            r.wf(),
            r.side() == Color::White,
            r.grid() == empty_grid(),
    {
        Board::new()
    }
}

impl Board {
    pub closed spec fn grid(self) -> Grid {
        self.squares@
    }

    pub closed spec fn side(self) -> Color {
        self.turn
    }

    /// The side to move.
    pub fn turn(&self) -> (r: Color)
        ensures
            r == self.side(),
    {
        self.turn
    }

    pub open spec fn wf(self) -> bool {
        self.grid().len() == 64
    }

    /// An empty board with White to move.
    pub fn new() -> (r: Board)
        ensures
            r.wf(),
            r.side() == Color::White,
            r.grid() == empty_grid(),
    {
        let mut squares: Vec<Option<Piece>> = Vec::new();
        let mut i: usize = 0;
        while i < 64
            invariant
                i <= 64,
                squares@.len() == i,
                squares@ == Seq::new(i as nat, |j: int| None::<Piece>),
            decreases 64 - i,
        {
            squares.push(None);
            i = i + 1;
            assert(squares@ =~= Seq::new(i as nat, |j: int| None::<Piece>));
        }
        Board { squares, turn: Color::White }
    }

    /// Puts `piece` (or nothing) on `pos`; a square off the board is ignored.
    pub fn set(&mut self, pos: Position, piece: Option<Piece>)
        requires
            old(self).wf(),
        ensures
            final(self).wf(),
            final(self).grid() == placed(old(self).grid(), pos, piece),
            final(self).side() == old(self).side(),
    {
        if pos.row < 8 && pos.col < 8 {
            self.squares.set(pos.row * 8 + pos.col, piece);
        }
    }

    /// The piece on `pos`, if any; nothing for a square off the board.
    pub fn get(&self, pos: Position) -> (r: Option<&Piece>)
        requires
            self.wf(),
        ensures
            match r {
                Some(q) => occupant(self.grid(), pos) == Some(*q),
                None => occupant(self.grid(), pos) is None,
            },
    {
        if pos.row < 8 && pos.col < 8 {
            self.squares[pos.row * 8 + pos.col].as_ref()
        } else {
            None
        }
    }

    /// The piece on `pos` for editing in place, if any.
    pub fn get_mut(&mut self, pos: Position) -> (r: Option<&mut Piece>)
        requires
            old(self).wf(),
        ensures
            final(self).side() == old(self).side(),
            match r {
                Some(q) => {
                    &&& occupant(old(self).grid(), pos) == Some(*q)
                    &&& final(self).grid() == placed(old(self).grid(), pos, Some(*final(q)))
                },
                None => {
                    &&& occupant(old(self).grid(), pos) is None
                    &&& final(self).grid() == old(self).grid()
                },
            },
    {
        if pos.row < 8 && pos.col < 8 {
            self.squares[pos.row * 8 + pos.col].as_mut()
        } else {
            None
        }
    }

    /// Removes and returns the piece on `pos`, if any.
    pub fn take(&mut self, pos: Position) -> (r: Option<Piece>)
        requires
            old(self).wf(),
        ensures
            final(self).wf(),
            r == occupant(old(self).grid(), pos),
            final(self).grid() == placed(old(self).grid(), pos, None),
            final(self).side() == old(self).side(),
    {
        if pos.row < 8 && pos.col < 8 {
            let i: usize = pos.row * 8 + pos.col;
            let r = self.squares[i];
            self.squares.set(i, None);
            r
        } else {
            None
        }
    }

    /// Passes the turn to the other side.
    pub fn switch_turn(&mut self)
        ensures
            final(self).side() == old(self).side().other(),
            final(self).grid() == old(self).grid(),
    {
        self.turn = self.turn.opponent();
    }

    /// Whether `pos` holds a piece of the side opposed to `color`.
    pub fn is_enemy_cell(&self, pos: Position, color: Color) -> (r: bool)
        requires
            self.wf(),
        ensures
            r == hostile(self.grid(), pos, color),
    {
        match self.get(pos) {
            Some(p) => p.color != color,
            None => false,
        }
    }

    /// The 64 squares in row-major order.
    pub fn all_positions(&self) -> (r: Vec<Position>)
        ensures
            r@.len() == 64,
            forall|i: int| 0 <= i < 64 ==> #[trigger] r@[i] == square_of(i),
    {
        let mut r: Vec<Position> = Vec::new();
        let mut i: usize = 0;
        while i < 64
            invariant
                i <= 64,
                r@.len() == i,
                forall|j: int| 0 <= j < i ==> #[trigger] r@[j] == square_of(j),
            decreases 64 - i,
        {
            r.push(square_at(i));
            i = i + 1;
        }
        r
    }

    /// The square of the first king of `color` in row-major order.
    pub fn get_king_pos(&self, color: Color) -> (r: Option<Position>)
        requires
            self.wf(),
        ensures
            r == king_square(self.grid(), color),
    {
        let mut i: usize = 0;
        while i < 64
            invariant
                self.wf(),
                i <= 64,
                forall|j: int| 0 <= j < i ==> !is_king_of(#[trigger] self.grid()[j], color),
            decreases 64 - i,
        {
            let pos = square_at(i);
            if let Some(p) = self.get(pos) {
                if p.color == color {
                    if let PieceData::King(_) = p.data {
                        assert(first_king_at(self.grid(), color, i as int));
                        let ghost c = choose|c: int| first_king_at(self.grid(), color, c);
                        assert(c == i) by {
                            if c < i {
                                assert(!is_king_of(self.grid()[c], color));
                            }
                            if c > i {
                                assert(!is_king_of(self.grid()[i as int], color));
                            }
                        }
                        return Some(pos);
                    }
                }
            }
            i = i + 1;
        }
        None
    }

    /// A board with the same cells and side to move.
    fn copy(&self) -> (r: Board)
        requires
            self.wf(),
        ensures
            r.wf(),
            r.grid() == self.grid(),
            r.side() == self.side(),
    {
        let mut squares: Vec<Option<Piece>> = Vec::new();
        let mut i: usize = 0;
        while i < 64
            invariant
                self.wf(),
                i <= 64,
                squares@ == self.grid().take(i as int),
            decreases 64 - i,
        {
            squares.push(self.squares[i]);
            assert(squares@ =~= self.grid().take(i + 1));
            i = i + 1;
        }
        assert(self.grid().take(64) =~= self.grid());
        Board { squares, turn: self.turn }
    }

    /// Clears the en passant mark of every pawn of `color`.
    pub fn reset_passants(&mut self, color: Color)
        requires
            old(self).wf(),
        ensures
            final(self).wf(),
            final(self).grid() == without_passants(old(self).grid(), color),
            final(self).side() == old(self).side(),
    {
        let ghost g = self.grid();
        let mut i: usize = 0;
        while i < 64
            invariant
                i <= 64,
                self.grid().len() == 64,
                g.len() == 64,
                self.side() == old(self).side(),
                g == old(self).grid(),
                forall|j: int|
                    0 <= j < 64 ==> #[trigger] self.grid()[j] == (if j < i {
                        cleared(g[j], color)
                    } else {
                        g[j]
                    }),
            decreases 64 - i,
        {
            let pos = square_at(i);
            if let Some(piece) = self.get_mut(pos) {
                if piece.color == color {
                    if let PieceData::Pawn(d) = &mut piece.data {
                        d.passant_target = None;
                    }
                }
            }
            i = i + 1;
        }
        assert(self.grid() =~= without_passants(g, color));
    }

    /// Moves the piece on `from` to `to` without asking whether the move is
    /// legal; the turn is left as it is.
    fn execute(&mut self, from: Position, to: Position)
        requires
            old(self).wf(),
        ensures
            final(self).wf(),
            final(self).grid() == executed(old(self).grid(), from, to),
            final(self).side() == old(self).side(),
    {
        let piece = match self.get(from) {
            Some(p) => *p,
            None => return ,
        };
        if let PieceData::Pawn(_) = piece.data {
            if from.col != to.col && self.is_empty_cell(to) {
                self.set(Position { row: from.row, col: to.col }, None);
            }
        }
        let mut data = piece.data;
        data.on_move(from, to);
        self.set(from, None);
        self.set(to, Some(Piece { color: piece.color, pos: to, data }));
        self.reset_passants(piece.color.opponent());
    }

    /// Whether the king of `color` is attacked; an error when the board holds
    /// no king of `color`.
    pub fn is_in_check(&self, color: Color) -> (r: Result<bool, MissingKing>)
        requires
            self.wf(),
        ensures
            r is Err <==> king_square(self.grid(), color) is None,
            r matches Err(e) ==> e.color == color,
            r matches Ok(b) ==> b == attacked(
                self.grid(),
                king_square(self.grid(), color).unwrap(),
                color.other(),
            ),
    {
        match self.get_king_pos(color) {
            Some(_) => Ok(self.king_exposed(color)),
            None => Err(MissingKing { color }),
        }
    }

    /// Whether the king of `color` is attacked, false when there is no such
    /// king: a move cannot expose a king that is not on the board.
    fn king_exposed(&self, color: Color) -> (r: bool)
        requires
            self.wf(),
        ensures
            r == in_check(self.grid(), color),
    {
        let king = match self.get_king_pos(color) {
            Some(k) => k,
            None => return false,
        };
        let ghost g = self.grid();
        assert(king_square(g, color) == Some(king));
        let mut i: usize = 0;
        while i < 64
            invariant
                self.wf(),
                g == self.grid(),
                king_square(g, color) == Some(king),
                i <= 64,
                forall|j: int| 0 <= j < i ==> !#[trigger] attacker(g, j, king, color.other()),
            decreases 64 - i,
        {
            let pos = square_at(i);
            proof {
                lemma_square_of(i as int);
            }
            if let Some(p) = self.get(pos) {
                if p.color != color {
                    let moves = p.data.candidate_moves(pos, p.color, self);
                    if contains(&moves, king) {
                        assert(attacker(g, i as int, king, color.other()));
                        assert(attacked(g, king, color.other()));
                        return true;
                    }
                }
            }
            i = i + 1;
        }
        false
    }

    /// Keeps in `available_moves` only the destinations to which the piece on
    /// `from` may move without leaving the king of `color` in check.
    pub fn exclude_king_exposure(
        &self,
        available_moves: &mut Vec<Position>,
        from: Position,
        color: Color,
    )
        requires
            self.wf(),
        ensures
            final(available_moves)@ == old(available_moves)@.filter(
                safe_for(self.grid(), from, color),
            ),
    {
        let ghost g = self.grid();
        let ghost pred = safe_for(g, from, color);
        let ghost cands = available_moves@;
        let mut kept: Vec<Position> = Vec::new();
        let mut i: usize = 0;
        while i < available_moves.len()
            invariant
                self.wf(),
                g == self.grid(),
                pred == safe_for(g, from, color),
                cands == available_moves@,
                i <= cands.len(),
                kept@ == cands.take(i as int).filter(pred),
            decreases cands.len() - i,
        {
            let to = available_moves[i];
            let mut trial = self.copy();
            trial.execute(from, to);
            let safe = !trial.king_exposed(color);
            proof {
                reveal(Seq::filter);
                assert(cands.take(i + 1).drop_last() =~= cands.take(i as int));
                assert(cands.take(i + 1).last() == to);
            }
            if safe {
                kept.push(to);
            }
            i = i + 1;
        }
        assert(cands.take(cands.len() as int) =~= cands);
        *available_moves = kept;
    }

    /// The legal destinations of the piece on `from`.
    pub fn legal_moves(&self, from: Position) -> (r: Vec<Position>)
        requires
            self.wf(),
        ensures
            r@ == legal_targets(self.grid(), from),
    {
        match self.get(from) {
            Some(p) => {
                let mut moves = p.data.candidate_moves(from, p.color, self);
                self.exclude_king_exposure(&mut moves, from, p.color);
                moves
            },
            None => Vec::new(),
        }
    }

    /// Whether no piece of `color` has a legal destination.
    fn no_legal_moves(&self, color: Color) -> (r: bool)
        requires
            self.wf(),
        ensures
            r == stuck(self.grid(), color),
    {
        let ghost g = self.grid();
        let mut i: usize = 0;
        while i < 64
            invariant
                self.wf(),
                g == self.grid(),
                i <= 64,
                forall|j: int|
                    0 <= j < i && (#[trigger] g[j] matches Some(p) && p.color == color)
                        ==> legal_targets(g, square_of(j)).len() == 0,
            decreases 64 - i,
        {
            let pos = square_at(i);
            proof {
                lemma_square_of(i as int);
            }
            if let Some(p) = self.get(pos) {
                if p.color == color {
                    let moves = self.legal_moves(pos);
                    if moves.len() > 0 {
                        return false;
                    }
                }
            }
            i = i + 1;
        }
        true
    }

    /// Whether `color` is in check and has no legal move; an error when the
    /// board holds no king of `color`.
    pub fn is_checkmate(&self, color: Color) -> (r: Result<bool, MissingKing>)
        requires
            self.wf(),
        ensures
            r is Err <==> king_square(self.grid(), color) is None,
            r matches Err(e) ==> e.color == color,
            r matches Ok(b) ==> b == checkmated(self.grid(), color),
    {
        let check = self.is_in_check(color)?;
        Ok(check && self.no_legal_moves(color))
    }

    /// Whether `color` is not in check and has no legal move; an error when
    /// the board holds no king of `color`.
    pub fn is_stalemate(&self, color: Color) -> (r: Result<bool, MissingKing>)
        requires
            self.wf(),
        ensures
            r is Err <==> king_square(self.grid(), color) is None,
            r matches Err(e) ==> e.color == color,
            r matches Ok(b) ==> b == stalemated(self.grid(), color),
    {
        let check = self.is_in_check(color)?;
        Ok(!check && self.no_legal_moves(color))
    }

    /// Moves the piece on `from` to `to` and passes the turn, when `to` is a
    /// legal destination of that piece; otherwise leaves the board as it is
    /// and says why the move was refused.
    pub fn try_move(&mut self, from: Position, to: Position) -> (r: Result<(), MoveError>)
        requires
            old(self).wf(),
        ensures
            final(self).wf(),
            (r == Err::<(), MoveError>(MoveError::NoPiece)) <==> occupant(old(self).grid(), from) is None,
            (r == Err::<(), MoveError>(MoveError::Unreachable)) <==> {
                &&& occupant(old(self).grid(), from) is Some
                &&& !candidates(old(self).grid(), from).contains(to)
            },
            (r == Err::<(), MoveError>(MoveError::ExposesKing)) <==> {
                &&& occupant(old(self).grid(), from) is Some
                &&& candidates(old(self).grid(), from).contains(to)
                &&& !legal_targets(old(self).grid(), from).contains(to)
            },
            r is Ok <==> legal_targets(old(self).grid(), from).contains(to),
            r is Ok ==> {
                &&& final(self).grid() == executed(old(self).grid(), from, to)
                &&& final(self).side() == old(self).side().other()
            },
            r is Err ==> {
                &&& final(self).grid() == old(self).grid()
                &&& final(self).side() == old(self).side()
            },
    {
        let ghost g = self.grid();
        let piece = match self.get(from) {
            Some(p) => *p,
            None => return Err(MoveError::NoPiece),
        };
        proof {
            lemma_legal_target(g, from, to);
        }
        let reach = piece.data.candidate_moves(from, piece.color, self);
        if !contains(&reach, to) {
            return Err(MoveError::Unreachable);
        }
        let mut trial = self.copy();
        trial.execute(from, to);
        if trial.king_exposed(piece.color) {
            return Err(MoveError::ExposesKing);
        }
        self.execute(from, to);
        self.switch_turn();
        Ok(())
    }

    /// Moves the piece on `from` to `to` and passes the turn, when `to` is a
    /// legal destination of that piece. Otherwise the board is left as it is.
    pub fn apply_move(&mut self, from: Position, to: Position)
        requires
            old(self).wf(),
        ensures
            final(self).wf(),
            legal_targets(old(self).grid(), from).contains(to) ==> {
                &&& final(self).grid() == executed(old(self).grid(), from, to)
                &&& final(self).side() == old(self).side().other()
            },
            !legal_targets(old(self).grid(), from).contains(to) ==> {
                &&& final(self).grid() == old(self).grid()
                &&& final(self).side() == old(self).side()
            },
    {
        let _ = self.try_move(from, to);
    }

    /// Whether `pos` holds no piece; true for a square off the board.
    pub fn is_empty_cell(&self, pos: Position) -> (r: bool)
        requires
            self.wf(),
        ensures
            r == vacant(self.grid(), pos),
    {
        self.get(pos).is_none()
    }
}

} // verus!
