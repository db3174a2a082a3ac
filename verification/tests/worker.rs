use chessbot::board::Board;
use chessbot::game::{Candidate, GameState, EVAL_MIN};
use chessbot::worker::{worker_step, WorkerAction, WorkerEvent, WorkerPhase, WorkerPool, WorkerState};

#[test]
fn fresh_worker_is_idle_with_placeholder() {
    let w = WorkerState::new();
    assert_eq!(w.phase, WorkerPhase::Idle);
    assert_eq!(w.published.depth, 0);
    assert!(!w.published.faulted);
    assert_eq!(w.published.state.eval, EVAL_MIN);
}

#[test]
fn assignment_starts_depth_one() {
    let root = Board::new();
    let (w, action) = worker_step(WorkerState::new(), WorkerEvent::Assign { root });
    assert_eq!(w.phase, WorkerPhase::Searching { root, depth: 1 });
    assert_eq!(action, WorkerAction::SearchDepth { root, depth: 1 });
    // The placeholder stays visible until a depth completes.
    assert_eq!(w.published, Candidate::placeholder());
}

#[test]
fn completed_depth_is_published_and_deepening_continues() {
    let root = Board::new();
    let (w, _) = worker_step(WorkerState::new(), WorkerEvent::Assign { root });
    let result = GameState { board: root, eval: 17 };
    let (w, action) = worker_step(w, WorkerEvent::DepthDone { result });
    assert_eq!(w.published, Candidate { state: result, depth: 1, faulted: false });
    assert_eq!(w.phase, WorkerPhase::Searching { root, depth: 2 });
    assert_eq!(action, WorkerAction::SearchDepth { root, depth: 2 });
}

#[test]
fn fault_publishes_sentinel_with_worst_eval() {
    let root = Board::new();
    let (w, _) = worker_step(WorkerState::new(), WorkerEvent::Assign { root });
    let (w, action) = worker_step(w, WorkerEvent::Fault);
    assert!(w.published.faulted);
    assert_eq!(w.published.depth, 0);
    assert_eq!(w.published.state.eval, EVAL_MIN);
    assert_eq!(w.phase, WorkerPhase::Idle);
    assert_eq!(action, WorkerAction::AwaitAssignment);
}

#[test]
fn cancellation_keeps_last_completed_depth() {
    let root = Board::new();
    let (w, _) = worker_step(WorkerState::new(), WorkerEvent::Assign { root });
    let result = GameState { board: root, eval: 4 };
    let (w, _) = worker_step(w, WorkerEvent::DepthDone { result });
    let before = w.published;
    let (w, action) = worker_step(w, WorkerEvent::Cancel);
    assert_eq!(w.phase, WorkerPhase::Idle);
    assert_eq!(w.published, before);
    assert_eq!(action, WorkerAction::AwaitAssignment);
}

#[test]
fn nothing_published_after_cancellation() {
    // Cancellation is observed at a depth boundary; afterwards, without a
    // new assignment, no further depth is begun and the cell never moves.
    let root = Board::new();
    let (w, _) = worker_step(WorkerState::new(), WorkerEvent::Assign { root });
    let (w, _) = worker_step(
        w,
        WorkerEvent::DepthDone { result: GameState { board: root, eval: 8 } },
    );
    let (w, _) = worker_step(w, WorkerEvent::Cancel);
    let frozen = w.published;
    let stray = GameState { board: root, eval: 99 };
    let (w, action) = worker_step(w, WorkerEvent::DepthDone { result: stray });
    assert_eq!(w.published, frozen);
    assert_eq!(w.phase, WorkerPhase::Idle);
    assert_eq!(action, WorkerAction::AwaitAssignment);
    let (w, action) = worker_step(w, WorkerEvent::Fault);
    assert_eq!(w.published, frozen);
    assert_eq!(action, WorkerAction::AwaitAssignment);
    assert_eq!(w.phase, WorkerPhase::Idle);
}

#[test]
fn new_assignment_supersedes_previous_search() {
    let root = Board::new();
    let (w, _) = worker_step(WorkerState::new(), WorkerEvent::Assign { root });
    let (w, _) = worker_step(
        w,
        WorkerEvent::DepthDone { result: GameState { board: root, eval: 3 } },
    );
    let kept = w.published;
    let (w, action) = worker_step(w, WorkerEvent::Assign { root });
    // Deepening restarts at 1; the prior result stays visible until
    // overwritten.
    assert_eq!(w.phase, WorkerPhase::Searching { root, depth: 1 });
    assert_eq!(action, WorkerAction::SearchDepth { root, depth: 1 });
    assert_eq!(w.published, kept);
}

#[test]
fn pool_is_created_at_fixed_size() {
    let pool = WorkerPool::new(4);
    assert_eq!(pool.workers.len(), 4);
    for w in &pool.workers {
        assert_eq!(*w, WorkerState::new());
    }
}
