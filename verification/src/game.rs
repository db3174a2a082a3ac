//! Game states, the candidates workers publish, and the error taxonomy.

use vstd::prelude::*;
use crate::board::Board;

verus! {

/// Signed evaluation score, from the side-to-move's perspective.
pub type Eval = i32;

/// The worst possible evaluation. Placeholder and fault-sentinel
/// candidates carry it so that arbitration never prefers them to a real
/// search result.
pub const EVAL_MIN: Eval = i32::MIN;

/// How advancing a ply can fail, and how the game legitimately ends.
#[derive(Clone, Copy, PartialEq, Eq, Structural, Debug)]
pub enum EngineError {
    /// Arbitration found no worker with a completed search result before
    /// the deadline; fatal for the ply, never papered over with a
    /// placeholder move.
    NoMovesComputed,
    /// One worker's search failed internally; isolated to that worker's
    /// pool slot and never propagated past the coordinator.
    WorkerFaulted,
    /// The current position has no legal move: the game is over. Not a
    /// fault, but surfaced through the same channel.
    TerminalPosition,
}

/// A position paired with the evaluation the search assigned to it.
/// Created fresh each ply, immutable once published.
#[derive(Clone, Copy, PartialEq, Eq, Structural, Debug)]
pub struct GameState {
    pub board: Board,
    pub eval: Eval,
}

impl GameState {
    /// A game state is well formed when its position is.
    pub open spec fn wf(self) -> bool {
        self.board.wf()
    }

    /// The game state every session starts from: the canonical starting
    /// position with a neutral evaluation.
    pub open spec fn init_spec() -> GameState {
        GameState { board: Board::start_spec(), eval: 0 }
    }

    /// The value a worker's cell holds before any depth has completed:
    /// the starting position carrying the worst possible evaluation, so
    /// that it can never be mistaken for a search result.
    pub open spec fn placeholder_spec() -> GameState {
        GameState { board: Board::start_spec(), eval: EVAL_MIN }
    }

    /// The initial game state, from the canonical starting position.
    pub fn init() -> (r: GameState)
        ensures
            r == GameState::init_spec(),
            r.wf(),
    {
        GameState { board: Board::new(), eval: 0 }
    }

    /// The placeholder game state, with the worst possible evaluation.
    pub fn placeholder() -> (r: GameState)
        ensures
            r == GameState::placeholder_spec(),
            r.wf(),
    {
        GameState { board: Board::new(), eval: EVAL_MIN }
    }
}

/// What the coordinator reads out of one worker's cell: the worker's best
/// game state so far, the search depth that produced it, and whether the
/// worker faulted.
#[derive(Clone, Copy, PartialEq, Eq, Structural, Debug)]
pub struct Candidate {
    /// The worker's best finding so far.
    pub state: GameState,
    /// The fully completed search depth that produced `state`; 0 while no
    /// depth has completed (placeholder or fault sentinel).
    pub depth: u8,
    /// Whether the worker's search failed internally.
    pub faulted: bool,
}

impl Candidate {
    pub open spec fn wf(self) -> bool {
        self.state.wf()
    }

    /// A candidate that no completed search stands behind: what a worker's
    /// cell holds before its first completed depth.
    pub open spec fn is_placeholder(self) -> bool {
        self.depth == 0 && !self.faulted
    }

    /// A genuine search result: some depth completed in full, and the
    /// worker did not fault. Only valid candidates may win arbitration.
    pub open spec fn is_valid(self) -> bool {
        self.depth >= 1 && !self.faulted
    }

    /// The candidate every worker's cell starts with.
    pub open spec fn placeholder_spec() -> Candidate {
        Candidate { state: GameState::placeholder_spec(), depth: 0, faulted: false }
    }

    /// The candidate a worker publishes when its search fails: carries the
    /// worst possible evaluation and the faulted mark, so arbitration
    /// excludes it while the coordinator can still observe the fault.
    pub open spec fn fault_sentinel_spec(root: Board) -> Candidate {
        Candidate {
            state: GameState { board: root, eval: EVAL_MIN },
            depth: 0,
            faulted: true,
        }
    }

    /// The initial content of a worker's cell.
    pub fn placeholder() -> (r: Candidate)
        ensures
            r == Candidate::placeholder_spec(),
            r.is_placeholder(),
            !r.is_valid(),
            r.wf(),
    {
        Candidate { state: GameState::placeholder(), depth: 0, faulted: false }
    }

    /// The fault condition this candidate surfaces to the coordinator, if
    /// any: `WorkerFaulted` exactly when the publishing worker's search
    /// failed.
    pub fn faulted_error(&self) -> (r: Option<EngineError>)
        ensures
            r == (if self.faulted {
                Some(EngineError::WorkerFaulted)
            } else {
                None::<EngineError>
            }),
    {
        if self.faulted {
            Some(EngineError::WorkerFaulted)
        } else {
            None
        }
    }
}

} // verus!
