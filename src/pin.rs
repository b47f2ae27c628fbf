use vstd::prelude::*;

use crate::board::{
    attacked, attacker, cleared, executed, first_king_at, in_check, is_king_of, king_square,
    lemma_legal_target, lemma_square_of, legal_targets, occupant, square_of, vacant, Grid,
};
use crate::piece::candidates;
use crate::types::{on_board, Color, Position};
use crate::utils::{ray, slide_targets};

verus! {

/// The square `m` rows from `p` on its file, upward or downward.
pub open spec fn file_square(p: Position, m: int, up: bool) -> Position {
    Position { row: (if up { p.row + m } else { p.row - m }) as usize, col: p.col }
}

/// Whether `row` lies strictly between rows `a` and `b`.
pub open spec fn strictly_between(row: int, a: int, b: int) -> bool {
    (a < row < b) || (b < row < a)
}

proof fn lemma_ray_reaches(g: Grid, cur: Position, up: bool, color: Color, fuel: nat, n: int)
    requires
        g.len() == 64,
        1 <= n <= fuel,
        cur.valid(),
        file_square(cur, n, up).valid(),
        on_board(if up { cur.row + n } else { cur.row - n }, cur.col as int),
        forall|m: int| 1 <= m < n ==> vacant(g, #[trigger] file_square(cur, m, up)),
        occupant(g, file_square(cur, n, up)) matches Some(q) && q.color != color,
    ensures
        ray(g, cur, 0, if up { 1 } else { -1 }, color, fuel).contains(file_square(cur, n, up)),
    decreases n,
{
    let dy: int = if up { 1 } else { -1 };
    let next = file_square(cur, 1, up);
    assert(cur.offset(0, dy) == Some(next));
    let r = ray(g, cur, 0, dy, color, fuel);
    if n == 1 {
        assert(r == seq![next]);
        assert(r[0] == next);
    } else {
        assert(vacant(g, next));
        assert forall|m: int| 1 <= m < n - 1 implies vacant(g, #[trigger] file_square(next, m, up)) by {
            assert(file_square(next, m, up) == file_square(cur, m + 1, up));
        }
        assert(file_square(next, n - 1, up) == file_square(cur, n, up));
        lemma_ray_reaches(g, next, up, color, (fuel - 1) as nat, n - 1);
        let rest = ray(g, next, 0, dy, color, (fuel - 1) as nat);
        assert(r == seq![next] + rest);
        let j = choose|j: int| 0 <= j < rest.len() && rest[j] == file_square(cur, n, up);
        assert(r[j + 1] == file_square(cur, n, up));
    }
}

proof fn lemma_slide_contains(
    g: Grid,
    from: Position,
    dirs: Seq<(i8, i8)>,
    color: Color,
    i: int,
    x: Position,
)
    requires
        0 <= i < dirs.len(),
        ray(g, from, dirs[i].0 as int, dirs[i].1 as int, color, 7).contains(x),
    ensures
        slide_targets(g, from, dirs, color).contains(x),
    decreases dirs.len(),
{
    let prev = slide_targets(g, from, dirs.drop_last(), color);
    let last = ray(g, from, dirs.last().0 as int, dirs.last().1 as int, color, 7);
    assert(slide_targets(g, from, dirs, color) == prev + last);
    if i == dirs.len() - 1 {
        let j = choose|j: int| 0 <= j < last.len() && last[j] == x;
        assert((prev + last)[prev.len() + j] == x);
    } else {
        assert(dirs.drop_last()[i] == dirs[i]);
        lemma_slide_contains(g, from, dirs.drop_last(), color, i, x);
        let j = choose|j: int| 0 <= j < prev.len() && prev[j] == x;
        assert((prev + last)[j] == x);
    }
}

/// After a move to a square off the file of `s`, `s` holds what it held,
/// up to the expiry of en passant marks.
proof fn lemma_cell_off_move(g: Grid, from: Position, to: Position, s: Position)
    requires
        g.len() == 64,
        occupant(g, from) is Some,
        s.valid(),
        s != from,
        s.col != to.col,
    ensures
        occupant(executed(g, from, to), s) == cleared(
            occupant(g, s),
            occupant(g, from).unwrap().color.other(),
        ),
{
}

/// A move of a piece other than a king makes no new king.
proof fn lemma_no_new_king(g: Grid, from: Position, to: Position, c: Color, j: int)
    requires
        g.len() == 64,
        occupant(g, from) matches Some(p) && !(p.data is King),
        0 <= j < 64,
    ensures
        is_king_of(executed(g, from, to)[j], c) ==> is_king_of(g[j], c),
{
}

/// A rook or queen that pins a piece against its king along a file keeps
/// that piece on the file: every legal destination of the pinned piece lies
/// on the file of the king.
pub proof fn lemma_pin_on_file(g: Grid, k: Position, from: Position, pinner: Position)
    requires
        g.len() == 64,
        k.valid(),
        from.valid(),
        pinner.valid(),
        k.col == from.col,
        pinner.col == from.col,
        strictly_between(from.row as int, k.row as int, pinner.row as int),
        occupant(g, from) matches Some(p) && !(p.data is King),
        king_square(g, occupant(g, from).unwrap().color) == Some(k),
        occupant(g, pinner) matches Some(q) && q.color != occupant(g, from).unwrap().color && (
        q.data is Rook || q.data is Queen),
        forall|s: Position|
            s.col == from.col && strictly_between(s.row as int, k.row as int, pinner.row as int)
                && s != from ==> #[trigger] vacant(g, s),
    ensures
        forall|t: Position| #[trigger] legal_targets(g, from).contains(t) ==> t.col == from.col,
{
    let color = occupant(g, from).unwrap().color;
    let enemy = color.other();
    assert forall|t: Position| #[trigger] legal_targets(g, from).contains(t) implies t.col
        == from.col by {
        if t.col != from.col {
            lemma_legal_target(g, from, t);
            let g2 = executed(g, from, t);
            // the king stays first among the kings of its side
            let ki = k.index();
            assert(square_of(ki) == k);
            let c0 = choose|c: int| first_king_at(g, color, c);
            assert(c0 == ki);
            lemma_cell_off_move(g, from, t, k);
            assert forall|j: int| 0 <= j < ki implies !is_king_of(#[trigger] g2[j], color) by {
                lemma_no_new_king(g, from, t, color, j);
            }
            assert(first_king_at(g2, color, ki));
            let c2 = choose|c: int| first_king_at(g2, color, c);
            assert(c2 == ki) by {
                if c2 > ki {
                    assert(!is_king_of(g2[ki], color));
                }
                if c2 < ki {
                    lemma_no_new_king(g, from, t, color, c2);
                }
            }
            assert(king_square(g2, color) == Some(k));
            // the pinner reaches the king along the file
            let up = k.row > pinner.row;
            let n: int = if up { k.row - pinner.row } else { pinner.row - k.row };
            assert(file_square(pinner, n, up) == k);
            lemma_cell_off_move(g, from, t, pinner);
            assert forall|m: int| 1 <= m < n implies vacant(g2, #[trigger] file_square(pinner, m, up)) by {
                let s = file_square(pinner, m, up);
                assert(s.row == (if up { pinner.row + m } else { pinner.row - m }));
                assert(s.valid());
                assert(strictly_between(s.row as int, k.row as int, pinner.row as int));
                if s != from {
                    assert(vacant(g, s));
                    lemma_cell_off_move(g, from, t, s);
                } else {
                    assert(occupant(g2, s) is None);
                }
            }
            lemma_ray_reaches(g2, pinner, up, enemy, 7, n);
            let pi = pinner.index();
            assert(square_of(pi) == pinner);
            let i: int = if up { 2 } else { 3 };
            lemma_slide_contains(g2, pinner, crate::piece::rook::rook_dirs(), enemy, i, k);
            lemma_slide_contains(g2, pinner, crate::piece::queen::queen_dirs(), enemy, i, k);
            assert(candidates(g2, pinner).contains(k));
            assert(attacker(g2, pi, k, enemy));
            assert(attacked(g2, k, enemy));
            assert(in_check(g2, color));
        }
    }
}

} // verus!
