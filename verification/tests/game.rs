use chessbot::board::Board;
use chessbot::game::{Candidate, GameState, EVAL_MIN};

#[test]
fn initial_state_is_neutral() {
    let gs = GameState::init();
    assert_eq!(gs.board, Board::new());
    assert_eq!(gs.eval, 0);
}

#[test]
fn placeholder_carries_worst_evaluation() {
    let gs = GameState::placeholder();
    assert_eq!(gs.eval, EVAL_MIN);
    assert_eq!(gs.eval, i32::MIN);
    assert_eq!(gs.board, Board::new());
}

#[test]
fn placeholder_candidate_has_no_completed_depth() {
    let c = Candidate::placeholder();
    assert_eq!(c.depth, 0);
    assert!(!c.faulted);
    assert_eq!(c.state, GameState::placeholder());
}
