use chess::board::{Board, MissingKing, MoveError};
use chess::piece::pawn::PawnData;
use chess::piece::{bishop, king, knight, pawn, queen, rook, Piece, PieceData};
use chess::types::{Color, Name, Position};
use chess::utils::{sliding_moves, step_moves};

fn sq(row: usize, col: usize) -> Position {
    Position { row, col }
}

fn sorted(mut v: Vec<Position>) -> Vec<(usize, usize)> {
    let mut r: Vec<(usize, usize)> = v.drain(..).map(|p| (p.row, p.col)).collect();
    r.sort();
    r
}

fn place(b: &mut Board, piece: Piece) {
    let pos = piece.pos;
    b.set(pos, Some(piece));
}

fn snapshot(b: &Board) -> (Vec<Option<Piece>>, Color) {
    let cells = b.all_positions().into_iter().map(|p| b.get(p).copied()).collect();
    (cells, b.turn)
}

#[test]
fn is_valid_accepts_exactly_the_board() {
    for r in -3i8..12 {
        for c in -3i8..12 {
            let inside = (0..8).contains(&r) && (0..8).contains(&c);
            assert_eq!(Position::is_valid(r, c), inside);
        }
    }
    assert!(!Position::is_valid(i8::MIN, 0));
    assert!(!Position::is_valid(0, i8::MAX));
}

#[test]
fn shifted_moves_col_by_dx_and_row_by_dy() {
    assert_eq!(sq(3, 3).shifted(2, 1), Some(sq(4, 5)));
    assert_eq!(sq(3, 3).shifted(-3, -3), Some(sq(0, 0)));
    assert_eq!(sq(0, 0).shifted(-1, 0), None);
    assert_eq!(sq(7, 7).shifted(0, 1), None);
    assert_eq!(sq(300, 0).shifted(-128, 0), None);
}

#[test]
fn place_then_query_round_trip() {
    let mut b = Board::new();
    let p = knight::new(sq(2, 5), Color::Black);
    b.set(sq(2, 5), Some(p));
    assert_eq!(b.get(sq(2, 5)), Some(&p));
    assert_eq!(b.take(sq(2, 5)), Some(p));
    assert_eq!(b.get(sq(2, 5)), None);
    b.set(sq(2, 5), Some(p));
    b.set(sq(2, 5), None);
    assert!(b.is_empty_cell(sq(2, 5)));
    // off-board squares hold nothing and ignore writes
    b.set(sq(8, 0), Some(p));
    assert_eq!(b.get(sq(8, 0)), None);
}

#[test]
fn get_mut_edits_the_piece_in_place() {
    let mut b = Board::new();
    place(&mut b, rook::new(sq(0, 0), Color::White));
    if let Some(p) = b.get_mut(sq(0, 0)) {
        p.color = Color::Black;
    }
    assert_eq!(b.get(sq(0, 0)).unwrap().color, Color::Black);
    assert!(b.get_mut(sq(9, 9)).is_none());
}

#[test]
fn cell_queries() {
    let mut b = Board::new();
    place(&mut b, queen::new(sq(4, 4), Color::Black));
    assert!(b.is_enemy_cell(sq(4, 4), Color::White));
    assert!(!b.is_enemy_cell(sq(4, 4), Color::Black));
    assert!(!b.is_enemy_cell(sq(4, 5), Color::White));
    assert!(b.is_empty_cell(sq(4, 5)));
    assert!(!b.is_empty_cell(sq(4, 4)));
}

#[test]
fn rejected_move_leaves_board_unchanged() {
    let mut b = Board::new();
    place(&mut b, king::new(sq(0, 4), Color::White));
    place(&mut b, rook::new(sq(0, 0), Color::White));
    place(&mut b, king::new(sq(7, 4), Color::Black));
    let before = snapshot(&b);
    b.apply_move(sq(0, 0), sq(1, 1)); // not a rook move
    assert_eq!(snapshot(&b), before);
    b.apply_move(sq(3, 3), sq(4, 3)); // empty source
    assert_eq!(snapshot(&b), before);
    b.apply_move(sq(0, 0), sq(0, 4)); // onto its own king
    assert_eq!(snapshot(&b), before);
}

#[test]
fn rook_in_corner_has_fourteen_moves() {
    let mut b = Board::new();
    place(&mut b, rook::new(sq(0, 0), Color::White));
    let moves = b.legal_moves(sq(0, 0));
    assert_eq!(moves.len(), 14);
    let s = sorted(moves);
    for i in 1..8 {
        assert!(s.contains(&(0, i)));
        assert!(s.contains(&(i, 0)));
    }
}

#[test]
fn knight_in_centre_has_eight_moves() {
    let mut b = Board::new();
    place(&mut b, knight::new(sq(3, 3), Color::White));
    let moves = b.legal_moves(sq(3, 3));
    assert_eq!(
        sorted(moves),
        vec![(1, 2), (1, 4), (2, 1), (2, 5), (4, 1), (4, 5), (5, 2), (5, 4)]
    );
}

#[test]
fn knight_near_edges_is_clipped() {
    let mut b = Board::new();
    place(&mut b, knight::new(sq(0, 0), Color::White));
    place(&mut b, knight::new(sq(0, 6), Color::White));
    assert_eq!(sorted(b.legal_moves(sq(0, 0))), vec![(1, 2), (2, 1)]);
    assert_eq!(sorted(b.legal_moves(sq(0, 6))), vec![(1, 4), (2, 5), (2, 7)]);
}

#[test]
fn pinned_knight_has_no_moves() {
    let mut b = Board::new();
    place(&mut b, king::new(sq(0, 4), Color::White));
    place(&mut b, knight::new(sq(2, 4), Color::White));
    place(&mut b, rook::new(sq(7, 4), Color::Black));
    place(&mut b, king::new(sq(7, 0), Color::Black));
    let raw = match b.get(sq(2, 4)).unwrap().data {
        PieceData::Knight(d) => d.candidate_moves(sq(2, 4), Color::White, &b),
        _ => panic!("expected a knight"),
    };
    assert_eq!(raw.len(), 8);
    assert!(b.legal_moves(sq(2, 4)).is_empty());
}

#[test]
fn pinned_rook_stays_on_the_file() {
    let mut b = Board::new();
    place(&mut b, king::new(sq(0, 4), Color::White));
    place(&mut b, rook::new(sq(2, 4), Color::White));
    place(&mut b, rook::new(sq(7, 4), Color::Black));
    place(&mut b, king::new(sq(7, 0), Color::Black));
    let moves = sorted(b.legal_moves(sq(2, 4)));
    assert_eq!(moves, vec![(1, 4), (3, 4), (4, 4), (5, 4), (6, 4), (7, 4)]);
}

#[test]
fn queen_and_king_give_checkmate_in_corner() {
    let mut b = Board::new();
    place(&mut b, king::new(sq(0, 0), Color::White));
    place(&mut b, queen::new(sq(1, 1), Color::Black));
    place(&mut b, king::new(sq(2, 2), Color::Black));
    assert_eq!(b.is_in_check(Color::White), Ok(true));
    assert_eq!(b.is_checkmate(Color::White), Ok(true));
    assert_eq!(b.is_stalemate(Color::White), Ok(false));
    assert_eq!(b.is_checkmate(Color::Black), Ok(false));
}

#[test]
fn unprotected_queen_is_no_checkmate() {
    let mut b = Board::new();
    place(&mut b, king::new(sq(0, 0), Color::White));
    place(&mut b, queen::new(sq(1, 1), Color::Black));
    place(&mut b, king::new(sq(7, 7), Color::Black));
    assert_eq!(b.is_in_check(Color::White), Ok(true));
    assert_eq!(b.is_checkmate(Color::White), Ok(false));
    assert_eq!(sorted(b.legal_moves(sq(0, 0))), vec![(1, 1)]);
}

#[test]
fn cornered_king_is_stalemated() {
    let mut b = Board::new();
    place(&mut b, king::new(sq(0, 0), Color::White));
    place(&mut b, queen::new(sq(2, 1), Color::Black));
    place(&mut b, king::new(sq(7, 7), Color::Black));
    assert_eq!(b.is_in_check(Color::White), Ok(false));
    assert_eq!(b.is_stalemate(Color::White), Ok(true));
    assert_eq!(b.is_checkmate(Color::White), Ok(false));
    assert_eq!(b.is_stalemate(Color::Black), Ok(false));
}

#[test]
fn turn_flips_only_on_applied_moves() {
    let mut b = Board::default();
    place(&mut b, king::new(sq(0, 4), Color::White));
    place(&mut b, king::new(sq(7, 4), Color::Black));
    place(&mut b, bishop::new(sq(0, 2), Color::White));
    assert_eq!(b.turn, Color::White);
    b.apply_move(sq(0, 2), sq(0, 3));
    assert_eq!(b.turn, Color::White);
    b.apply_move(sq(0, 2), sq(3, 5));
    assert_eq!(b.turn, Color::Black);
    assert_eq!(b.get(sq(0, 2)), None);
    let moved = *b.get(sq(3, 5)).unwrap();
    assert_eq!(moved.pos, sq(3, 5));
    assert_eq!(moved.data, PieceData::Bishop(bishop::BishopData { has_moved: true }));
    b.apply_move(sq(7, 4), sq(6, 4));
    assert_eq!(b.turn, Color::White);
    b.apply_move(sq(7, 4), sq(6, 4));
    assert_eq!(b.turn, Color::White);
}

#[test]
fn capture_removes_the_taken_piece() {
    let mut b = Board::new();
    place(&mut b, rook::new(sq(0, 0), Color::White));
    place(&mut b, knight::new(sq(5, 0), Color::Black));
    b.apply_move(sq(0, 0), sq(5, 0));
    let p = *b.get(sq(5, 0)).unwrap();
    assert_eq!(p.name(), Name::Rook);
    assert_eq!(p.color, Color::White);
}

#[test]
fn king_may_not_step_into_check() {
    let mut b = Board::new();
    place(&mut b, king::new(sq(0, 0), Color::White));
    place(&mut b, rook::new(sq(7, 1), Color::Black));
    assert_eq!(sorted(b.legal_moves(sq(0, 0))), vec![(1, 0)]);
}

#[test]
fn sliding_moves_stop_at_pieces() {
    let mut b = Board::new();
    place(&mut b, rook::new(sq(3, 3), Color::White));
    place(&mut b, pawn::new(sq(3, 5), Color::White));
    place(&mut b, pawn::new(sq(5, 3), Color::Black));
    let m = sliding_moves(&b, sq(3, 3), &[(1, 0), (0, 1)], Color::White);
    assert_eq!(m, vec![sq(3, 4), sq(4, 3), sq(5, 3)]);
    let all = sorted(b.legal_moves(sq(3, 3)));
    assert_eq!(all.len(), 3 + 2 + 1 + 3);
    assert!(!all.contains(&(3, 5)));
}

#[test]
fn step_moves_skip_friends_and_edges() {
    let mut b = Board::new();
    place(&mut b, pawn::new(sq(1, 1), Color::White));
    place(&mut b, pawn::new(sq(0, 1), Color::Black));
    let m = step_moves(&b, sq(0, 0), &[(1, 1), (1, 0), (-1, 0), (0, 1)], Color::White);
    assert_eq!(m, vec![sq(0, 1), sq(1, 0)]);
}

#[test]
fn pawn_pushes_and_captures() {
    let mut b = Board::new();
    place(&mut b, pawn::new(sq(1, 3), Color::White));
    place(&mut b, knight::new(sq(2, 4), Color::Black));
    place(&mut b, knight::new(sq(2, 2), Color::White));
    assert_eq!(sorted(b.legal_moves(sq(1, 3))), vec![(2, 3), (2, 4), (3, 3)]);
    place(&mut b, pawn::new(sq(6, 0), Color::Black));
    assert_eq!(sorted(b.legal_moves(sq(6, 0))), vec![(4, 0), (5, 0)]);
    place(&mut b, rook::new(sq(4, 0), Color::White));
    assert_eq!(sorted(b.legal_moves(sq(6, 0))), vec![(5, 0)]);
    place(&mut b, rook::new(sq(5, 0), Color::White));
    assert!(b.legal_moves(sq(6, 0)).is_empty());
}

#[test]
fn double_step_marks_the_passed_square() {
    let mut b = Board::new();
    place(&mut b, pawn::new(sq(1, 3), Color::White));
    b.apply_move(sq(1, 3), sq(3, 3));
    let p = *b.get(sq(3, 3)).unwrap();
    assert_eq!(
        p.data,
        PieceData::Pawn(PawnData { has_moved: true, passant_target: Some(sq(2, 3)) })
    );
    let mut d = PawnData { has_moved: false, passant_target: Some(sq(2, 3)) };
    d.on_move(sq(3, 3), sq(4, 3));
    assert_eq!(d, PawnData { has_moved: true, passant_target: None });
}

#[test]
fn en_passant_takes_the_passing_pawn() {
    let mut b = Board::new();
    place(&mut b, pawn::new(sq(1, 3), Color::White));
    place(&mut b, pawn::new(sq(3, 4), Color::Black));
    b.apply_move(sq(1, 3), sq(3, 3));
    assert_eq!(sorted(b.legal_moves(sq(3, 4))), vec![(2, 3), (2, 4)]);
    b.apply_move(sq(3, 4), sq(2, 3));
    assert_eq!(b.get(sq(3, 3)), None);
    assert_eq!(b.get(sq(2, 3)).unwrap().color, Color::Black);
}

#[test]
fn en_passant_window_is_one_move() {
    let mut b = Board::new();
    place(&mut b, pawn::new(sq(1, 3), Color::White));
    place(&mut b, pawn::new(sq(3, 4), Color::Black));
    place(&mut b, knight::new(sq(7, 7), Color::Black));
    b.apply_move(sq(1, 3), sq(3, 3));
    b.apply_move(sq(7, 7), sq(5, 6));
    assert_eq!(
        b.get(sq(3, 3)).unwrap().data,
        PieceData::Pawn(PawnData { has_moved: true, passant_target: None })
    );
    assert_eq!(sorted(b.legal_moves(sq(3, 4))), vec![(2, 4)]);
}

#[test]
fn reset_passants_clears_one_side() {
    let mut b = Board::new();
    let mut w = pawn::new(sq(3, 3), Color::White);
    w.data = PieceData::Pawn(PawnData { has_moved: true, passant_target: Some(sq(2, 3)) });
    let mut k = pawn::new(sq(4, 0), Color::Black);
    k.data = PieceData::Pawn(PawnData { has_moved: true, passant_target: Some(sq(5, 0)) });
    place(&mut b, w);
    place(&mut b, k);
    b.reset_passants(Color::White);
    assert_eq!(
        b.get(sq(3, 3)).unwrap().data,
        PieceData::Pawn(PawnData { has_moved: true, passant_target: None })
    );
    assert_eq!(b.get(sq(4, 0)).unwrap().data, k.data);
}

#[test]
fn king_lookup_and_missing_king() {
    let mut b = Board::new();
    assert_eq!(b.get_king_pos(Color::White), None);
    assert_eq!(b.is_in_check(Color::White), Err(MissingKing { color: Color::White }));
    assert_eq!(b.is_stalemate(Color::White), Err(MissingKing { color: Color::White }));
    assert_eq!(b.is_checkmate(Color::Black), Err(MissingKing { color: Color::Black }));
    place(&mut b, king::new(sq(5, 6), Color::White));
    place(&mut b, king::new(sq(2, 1), Color::Black));
    assert_eq!(b.get_king_pos(Color::White), Some(sq(5, 6)));
    assert_eq!(b.get_king_pos(Color::Black), Some(sq(2, 1)));
    assert_eq!(b.is_in_check(Color::White), Ok(false));
    assert_eq!(b.turn(), Color::White);
}

#[test]
fn exclude_king_exposure_filters_a_list() {
    let mut b = Board::new();
    place(&mut b, king::new(sq(0, 0), Color::White));
    place(&mut b, rook::new(sq(7, 1), Color::Black));
    let mut m = vec![sq(0, 1), sq(1, 0), sq(1, 1)];
    b.exclude_king_exposure(&mut m, sq(0, 0), Color::White);
    assert_eq!(m, vec![sq(1, 0)]);
}

#[test]
fn all_positions_in_row_major_order() {
    let b = Board::new();
    let all = b.all_positions();
    assert_eq!(all.len(), 64);
    assert_eq!(all[0], sq(0, 0));
    assert_eq!(all[9], sq(1, 1));
    assert_eq!(all[63], sq(7, 7));
}

#[test]
fn switch_turn_and_defaults() {
    let mut b = Board::default();
    assert_eq!(Color::default(), Color::White);
    b.switch_turn();
    assert_eq!(b.turn, Color::Black);
    b.switch_turn();
    assert_eq!(b.turn, Color::White);
    assert_eq!(Color::Black.opponent(), Color::White);
}

#[test]
fn constructors_and_moved_flags() {
    let q = queen::new(sq(0, 3), Color::White);
    assert_eq!(q.name(), Name::Queen);
    assert_eq!(q.pos, sq(0, 3));
    let mut qd = queen::QueenData { has_moved: false };
    qd.moved();
    assert!(qd.has_moved);
    let mut kd = knight::KnightData { has_moved: false };
    kd.moved();
    assert!(kd.has_moved);
    assert_eq!(king::new(sq(0, 4), Color::Black).name(), Name::King);
    assert_eq!(pawn::new(sq(1, 0), Color::White).name(), Name::Pawn);
}

#[test]
fn try_move_reports_each_refusal() {
    let mut b = Board::new();
    place(&mut b, king::new(sq(0, 4), Color::White));
    place(&mut b, knight::new(sq(1, 4), Color::White));
    place(&mut b, rook::new(sq(7, 4), Color::Black));
    place(&mut b, king::new(sq(7, 0), Color::Black));
    let before = snapshot(&b);
    assert_eq!(b.try_move(sq(4, 4), sq(5, 4)), Err(MoveError::NoPiece));
    assert_eq!(b.try_move(sq(1, 4), sq(2, 4)), Err(MoveError::Unreachable));
    assert_eq!(b.try_move(sq(1, 4), sq(3, 5)), Err(MoveError::ExposesKing));
    assert_eq!(snapshot(&b), before);
    assert_eq!(b.try_move(sq(0, 4), sq(0, 3)), Ok(()));
    assert_eq!(b.turn, Color::Black);
    assert_eq!(b.get(sq(0, 3)).unwrap().name(), Name::King);
}

#[test]
fn queen_pin_from_below_keeps_bishop_still() {
    let mut b = Board::new();
    place(&mut b, king::new(sq(6, 2), Color::Black));
    place(&mut b, bishop::new(sq(4, 2), Color::Black));
    place(&mut b, queen::new(sq(1, 2), Color::White));
    place(&mut b, king::new(sq(0, 7), Color::White));
    assert!(b.legal_moves(sq(4, 2)).is_empty());
    assert_eq!(b.try_move(sq(4, 2), sq(5, 3)), Err(MoveError::ExposesKing));
}
