//! The game session: drives the ply loop over the coordinator.
//!
//! The session holds the current game state and the sequence of positions
//! played so far. Each ply, the embedding program first asks the legality
//! oracle whether the current position has any legal move, then — after
//! the thinking budget has run out and the workers' cells have been
//! snapshotted — hands both answers to [`GameSession::advance_ply`].

use vstd::prelude::*;
use crate::board::Board;
use crate::coordinator;
use crate::coordinator::is_winner;
use crate::game::{Candidate, EngineError, Eval, GameState};

verus! {

/// One game in progress: the current state, the positions played so far,
/// and the fixed size of the worker pool arbitrated over.
pub struct GameSession {
    /// The authoritative game state after the last completed ply.
    pub current: GameState,
    /// Every position the game has passed through, oldest first; the last
    /// entry is the current position.
    pub history: Vec<Board>,
    /// Number of workers in the pool; fixed at construction, every
    /// snapshot arbitrated must have exactly this many candidates.
    pub n_workers: usize,
}

impl GameSession {
    /// Session well-formedness: the current position and every recorded
    /// position are well formed, and the record ends in the current
    /// position.
    pub open spec fn wf(self) -> bool {
        &&& self.current.wf()
        &&& self.history@.len() >= 1
        &&& self.history@.last() == self.current.board
        &&& forall|i: int| 0 <= i < self.history@.len() ==> (#[trigger] self.history@[i]).wf()
    }

    /// A fresh session at the canonical starting position, arbitrating
    /// over a pool of `n_workers` workers.
    pub fn new(n_workers: usize) -> (r: GameSession)
        ensures
            r.current == GameState::init_spec(),
            r.history@ =~= seq![Board::start_spec()],
            r.n_workers == n_workers,
            r.wf(),
    {
        let current = GameState::init();
        let mut history: Vec<Board> = Vec::new();
        history.push(current.board);
        GameSession { current, history, n_workers }
    }

    /// The sequence of positions played so far, oldest first.
    pub fn moves(&self) -> (r: &Vec<Board>)
        ensures
            r@ == self.history@,
    {
        &self.history
    }

    /// Advances the game by one ply.
    ///
    /// `has_legal_moves` is the legality oracle's verdict on the current
    /// position; when it is false the game has legitimately ended and the
    /// session reports `TerminalPosition` without consulting the workers.
    /// Otherwise `cands` — the snapshot of every worker's cell, one entry
    /// per pool slot — is arbitrated: the winning worker's game state
    /// becomes the current one, its position is appended to the record,
    /// and its evaluation is returned. When no worker has published a
    /// valid candidate the ply fails with `NoMovesComputed` and the
    /// session is left exactly as it was.
    pub fn advance_ply(&mut self, has_legal_moves: bool, cands: &Vec<Candidate>) -> (r: Result<
        Eval,
        EngineError,
    >)
        requires
            old(self).wf(),
            cands@.len() == old(self).n_workers,
            forall|i: int| 0 <= i < cands@.len() ==> (#[trigger] cands@[i]).wf(),
        ensures
            final(self).wf(),
            final(self).n_workers == old(self).n_workers,
            !has_legal_moves ==> r == Err::<Eval, EngineError>(EngineError::TerminalPosition)
                && *final(self) == *old(self),
            has_legal_moves && (forall|j: int| 0 <= j < cands@.len() ==> !(#[trigger] cands@[j]).is_valid())
                ==> r == Err::<Eval, EngineError>(EngineError::NoMovesComputed)
                && *final(self) == *old(self),
            has_legal_moves && (exists|j: int|
                0 <= j < cands@.len() && (#[trigger] cands@[j]).is_valid()) ==> r is Ok,
            r matches Ok(e) ==> has_legal_moves && exists|i: int|
                {
                    &&& #[trigger] is_winner(cands@, i)
                    &&& e == cands@[i].state.eval
                    &&& final(self).current == cands@[i].state
                    &&& final(self).history@ == old(self).history@.push(cands@[i].state.board)
                },
            r matches Err(e) ==> *final(self) == *old(self) && (e == EngineError::TerminalPosition
                || e == EngineError::NoMovesComputed),
    {
        if !has_legal_moves {
            return Err(EngineError::TerminalPosition);
        }
        match coordinator::advance(cands) {
            Ok(gs) => {
                proof {
                    let i = choose|i: int| is_winner(cands@, i) && gs == cands@[i].state;
                    assert(cands@[i].wf());
                }
                self.current = gs;
                self.history.push(gs.board);
                Ok(gs.eval)
            },
            Err(e) => Err(e),
        }
    }
}

} // verus!
