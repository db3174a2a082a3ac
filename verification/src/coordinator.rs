//! Arbitration: turning the pool's independently published candidates
//! into one authoritative next game state per ply.

use vstd::prelude::*;
use crate::game::{Candidate, EngineError, GameState};

verus! {

/// The outcome of arbitration: which worker won and the game state it
/// published.
#[derive(Clone, Copy, PartialEq, Eq, Structural, Debug)]
pub struct Winner {
    /// Index of the winning worker in the candidate snapshot.
    pub index: usize,
    /// The winning worker's published game state.
    pub state: GameState,
}

/// Candidate `i` wins arbitration over the snapshot `cands`: it is a
/// genuine search result, no valid candidate evaluates higher, and every
/// valid candidate at a higher index evaluates strictly lower — on equal
/// maximal evaluations the highest-index worker wins, so the selection is
/// a function of the snapshot alone.
pub open spec fn is_winner(cands: Seq<Candidate>, i: int) -> bool {
    &&& 0 <= i < cands.len()
    &&& cands[i].is_valid()
    &&& forall|j: int|
        0 <= j < cands.len() && cands[j].is_valid() ==> cands[j].state.eval
            <= cands[i].state.eval
    &&& forall|j: int|
        i < j < cands.len() && cands[j].is_valid() ==> cands[j].state.eval
            < cands[i].state.eval
}

/// Determinism of arbitration: the winner is a function of the candidate
/// snapshot alone — at most one index can satisfy [`is_winner`], so
/// repeated arbitration over the same snapshot selects the same worker.
pub proof fn lemma_arbitration_deterministic(cands: Seq<Candidate>, i: int, j: int)
    requires
        is_winner(cands, i),
        is_winner(cands, j),
    ensures
        i == j,
{
    if i < j {
        assert(cands[j].state.eval < cands[i].state.eval);
        assert(cands[i].state.eval <= cands[j].state.eval);
    } else if j < i {
        assert(cands[i].state.eval < cands[j].state.eval);
        assert(cands[j].state.eval <= cands[i].state.eval);
    }
}

/// Tie-break: when the two candidates attaining the maximal evaluation
/// stand at indices `i < j`, arbitration resolves to worker `j`'s
/// candidate.
pub proof fn lemma_tie_break(cands: Seq<Candidate>, i: int, j: int, w: int)
    requires
        0 <= i < j < cands.len(),
        cands[i].is_valid(),
        cands[j].is_valid(),
        cands[i].state.eval == cands[j].state.eval,
        forall|k: int|
            0 <= k < cands.len() && cands[k].is_valid() ==> cands[k].state.eval
                <= cands[i].state.eval,
        forall|k: int|
            0 <= k < cands.len() && cands[k].is_valid() && cands[k].state.eval
                == cands[i].state.eval ==> k == i || k == j,
        is_winner(cands, w),
    ensures
        w == j,
{
    assert(cands[w].state.eval <= cands[i].state.eval);
    assert(cands[i].state.eval <= cands[w].state.eval);
    assert(w == i || w == j);
    if w == i {
        assert(cands[j].state.eval < cands[i].state.eval);
    }
}

/// Fault isolation: a faulted worker's candidate is never selected while
/// any worker produced a valid candidate — whatever evaluation the fault
/// sentinel carries, the winner is some other worker.
pub proof fn lemma_fault_isolation(cands: Seq<Candidate>, k: int, w: int)
    requires
        0 <= k < cands.len(),
        cands[k].faulted,
        is_winner(cands, w),
    ensures
        w != k,
{
}

/// Reads the snapshot of every worker's published candidate and selects
/// the winner: the valid candidate with the maximal evaluation, ties
/// resolved to the highest-index worker. Fails with `NoMovesComputed`
/// exactly when no worker has published a valid candidate — a placeholder
/// or fault sentinel is never returned as if it were a real move.
pub fn arbitrate(cands: &Vec<Candidate>) -> (r: Result<Winner, EngineError>)
    ensures
        match r {
            Ok(w) => is_winner(cands@, w.index as int) && w.state == cands@[w.index as int].state,
            Err(e) => {
                &&& e == EngineError::NoMovesComputed
                &&& forall|j: int| 0 <= j < cands@.len() ==> !cands@[j].is_valid()
            },
        },
{
    let mut best: Option<usize> = None;
    let mut i: usize = 0;
    while i < cands.len()
        invariant
            i <= cands.len(),
            match best {
                Some(b) => {
                    &&& b < i
                    &&& cands@[b as int].is_valid()
                    &&& forall|j: int|
                        0 <= j < i && cands@[j].is_valid() ==> cands@[j].state.eval
                            <= cands@[b as int].state.eval
                    &&& forall|j: int|
                        b < j < i && cands@[j].is_valid() ==> cands@[j].state.eval
                            < cands@[b as int].state.eval
                },
                None => forall|j: int| 0 <= j < i ==> !cands@[j].is_valid(),
            },
        decreases cands.len() - i,
    {
        let c = cands[i];
        if c.depth >= 1 && !c.faulted {
            match best {
                None => {
                    best = Some(i);
                },
                Some(b) => {
                    if c.state.eval >= cands[b].state.eval {
                        best = Some(i);
                    }
                },
            }
        }
        i = i + 1;
    }
    match best {
        Some(b) => Ok(Winner { index: b, state: cands[b].state }),
        None => Err(EngineError::NoMovesComputed),
    }
}

/// Advances one ply from the candidate snapshot: arbitrates and
/// constructs the next game state from the winning candidate, returned
/// together with its evaluation. Fails with `NoMovesComputed` exactly
/// when no worker has published a valid candidate.
pub fn advance(cands: &Vec<Candidate>) -> (r: Result<GameState, EngineError>)
    ensures
        match r {
            Ok(gs) => exists|i: int| is_winner(cands@, i) && gs == cands@[i].state,
            Err(e) => {
                &&& e == EngineError::NoMovesComputed
                &&& forall|j: int| 0 <= j < cands@.len() ==> !cands@[j].is_valid()
            },
        },
{
    match arbitrate(cands) {
        Ok(w) => {
            proof {
                assert(is_winner(cands@, w.index as int));
            }
            Ok(w.state)
        },
        Err(e) => Err(e),
    }
}

} // verus!
