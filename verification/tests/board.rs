use chessbot::board::{Board, EN_PASSANT_NONE};

#[test]
fn start_position_masks() {
    let b = Board::new();
    assert_eq!(b.kings, 576460752303423496);
    assert_eq!(b.queens, 1152921504606846992);
    assert_eq!(b.rooks, 9295429630892703873);
    assert_eq!(b.bishops, 2594073385365405732);
    assert_eq!(b.knights, 4755801206503243842);
    assert_eq!(b.pawns, 71776119061282560);
    assert_eq!(b.whites, 65535);
    assert_eq!(b.blacks, 18446462598732840960);
    assert_eq!(b.castleable_pieces, 9871890383196127369);
    assert_eq!(b.fifty_rule, 0);
    assert_eq!(b.en_passant_index, EN_PASSANT_NONE);
    assert_eq!(b.eval, 0);
}

#[test]
fn start_position_is_well_formed() {
    let b = Board::new();
    assert!(b.is_wf());
    assert_eq!(b.whites & b.blacks, 0);
    assert_eq!(
        b.whites | b.blacks,
        b.kings | b.queens | b.rooks | b.bishops | b.knights | b.pawns
    );
}

#[test]
fn overlapping_colors_rejected() {
    let mut b = Board::new();
    b.blacks |= 1; // a1 is already white
    assert!(!b.is_wf());
}

#[test]
fn colored_square_without_piece_rejected() {
    let mut b = Board::new();
    b.whites |= 1 << 20; // empty square marked white
    assert!(!b.is_wf());
}

#[test]
fn square_with_two_piece_kinds_rejected() {
    let mut b = Board::new();
    b.queens |= 1; // a1 already holds a rook
    assert!(!b.is_wf());
}

#[test]
fn castling_rights_outside_rooks_and_kings_rejected() {
    let mut b = Board::new();
    b.castleable_pieces |= 1 << 1; // b1 holds a knight
    assert!(!b.is_wf());
}

#[test]
fn fifty_rule_over_bound_rejected() {
    let mut b = Board::new();
    b.fifty_rule = 101;
    assert!(!b.is_wf());
}

#[test]
fn fifty_rule_at_bound_accepted() {
    let mut b = Board::new();
    b.fifty_rule = 100;
    assert!(b.is_wf());
}

#[test]
fn en_passant_index_out_of_range_rejected() {
    let mut b = Board::new();
    b.en_passant_index = 65;
    assert!(!b.is_wf());
}

#[test]
fn position_after_pawn_push_is_well_formed() {
    // White plays e2-e4: the pawn leaves square 12 and lands on square 28.
    let mut b = Board::new();
    b.pawns = (b.pawns & !(1 << 12)) | (1 << 28);
    b.whites = (b.whites & !(1 << 12)) | (1 << 28);
    b.en_passant_index = 20; // e3 is capturable en passant
    assert!(b.is_wf());
}
