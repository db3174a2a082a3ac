//! The search worker's lifecycle as a state machine.
//!
//! Each pool worker owns one long-lived thread. The thread's loop is
//! unverifiable plumbing (a channel receive, the external search for one
//! depth, a deadline check), so the loop lives in the embedding program;
//! every decision it takes is a call to [`worker_step`] here. The thread
//! keeps one [`WorkerState`], feeds each observation in as a
//! [`WorkerEvent`], copies the returned `published` candidate into its
//! shared cell — holding the cell's lock only for that copy — and then
//! performs the returned [`WorkerAction`].

use vstd::prelude::*;
use crate::board::Board;
use crate::game::{Candidate, EVAL_MIN, GameState};

verus! {

/// Deepest iteration a worker will attempt; deepening stops there.
pub const MAX_DEPTH: u8 = 255;

/// What a worker is doing between two events.
#[derive(Clone, Copy, PartialEq, Eq, Structural, Debug)]
pub enum WorkerPhase {
    /// Waiting for a new root position on its channel.
    Idle,
    /// Searching `root`, currently on iteration `depth`.
    Searching { root: Board, depth: u8 },
}

/// One worker's state: its phase and the candidate its shared cell holds.
#[derive(Clone, Copy, PartialEq, Eq, Structural, Debug)]
pub struct WorkerState {
    pub phase: WorkerPhase,
    /// The candidate visible to the coordinator. Overwritten only by a
    /// fully completed depth or by the fault sentinel, never by partial
    /// work.
    pub published: Candidate,
}

/// What a worker's thread can observe.
#[derive(Clone, Copy, PartialEq, Eq, Structural, Debug)]
pub enum WorkerEvent {
    /// A new root position arrived on the channel; supersedes any prior
    /// assignment.
    Assign { root: Board },
    /// One full depth of search completed with this result. Never sent
    /// for a partially searched depth.
    DepthDone { result: GameState },
    /// The search for the current depth failed internally.
    Fault,
    /// The cancellation signal was observed at a depth boundary: the
    /// thinking budget elapsed or the ply was abandoned.
    Cancel,
}

/// What the worker's thread must do next.
#[derive(Clone, Copy, PartialEq, Eq, Structural, Debug)]
pub enum WorkerAction {
    /// Block on the channel until a new root position arrives.
    AwaitAssignment,
    /// Run the external search on `root` limited to `depth`, then report
    /// `DepthDone`, `Fault`, or — if cancellation is observed first at
    /// this depth boundary — `Cancel`.
    SearchDepth { root: Board, depth: u8 },
}

impl WorkerState {
    /// A worker's state is well formed when everything it may publish is:
    /// the published candidate's position is well formed, and so is the
    /// root it is searching; deepening always stands at depth 1 or more.
    pub open spec fn wf(self) -> bool {
        &&& self.published.wf()
        &&& match self.phase {
            WorkerPhase::Searching { root, depth } => root.wf() && depth >= 1,
            WorkerPhase::Idle => true,
        }
    }

    /// The state a worker starts in: idle, cell holding the placeholder.
    pub open spec fn initial_spec() -> WorkerState {
        WorkerState { phase: WorkerPhase::Idle, published: Candidate::placeholder_spec() }
    }

    /// A fresh worker state, as pool construction creates it.
    pub fn new() -> (r: WorkerState)
        ensures
            r == WorkerState::initial_spec(),
            r.wf(),
    {
        WorkerState { phase: WorkerPhase::Idle, published: Candidate::placeholder() }
    }
}

/// An event is well formed when the positions it carries are.
pub open spec fn event_wf(e: WorkerEvent) -> bool {
    match e {
        WorkerEvent::Assign { root } => root.wf(),
        WorkerEvent::DepthDone { result } => result.wf(),
        WorkerEvent::Fault => true,
        WorkerEvent::Cancel => true,
    }
}

/// The worker's next state on observing `e` in state `s`.
pub open spec fn step_state(s: WorkerState, e: WorkerEvent) -> WorkerState {
    match e {
        WorkerEvent::Assign { root } => WorkerState {
            phase: WorkerPhase::Searching { root, depth: 1 },
            published: s.published,
        },
        WorkerEvent::DepthDone { result } => match s.phase {
            WorkerPhase::Searching { root, depth } => WorkerState {
                phase: if depth < MAX_DEPTH {
                    WorkerPhase::Searching { root, depth: (depth + 1) as u8 }
                } else {
                    WorkerPhase::Idle
                },
                published: Candidate { state: result, depth, faulted: false },
            },
            WorkerPhase::Idle => s,
        },
        WorkerEvent::Fault => match s.phase {
            WorkerPhase::Searching { root, depth } => WorkerState {
                phase: WorkerPhase::Idle,
                published: Candidate::fault_sentinel_spec(root),
            },
            WorkerPhase::Idle => s,
        },
        WorkerEvent::Cancel => WorkerState { phase: WorkerPhase::Idle, published: s.published },
    }
}

/// The action the worker's thread performs after observing `e` in `s`.
pub open spec fn step_action(s: WorkerState, e: WorkerEvent) -> WorkerAction {
    match e {
        WorkerEvent::Assign { root } => WorkerAction::SearchDepth { root, depth: 1 },
        WorkerEvent::DepthDone { result } => match s.phase {
            WorkerPhase::Searching { root, depth } => if depth < MAX_DEPTH {
                WorkerAction::SearchDepth { root, depth: (depth + 1) as u8 }
            } else {
                WorkerAction::AwaitAssignment
            },
            WorkerPhase::Idle => WorkerAction::AwaitAssignment,
        },
        WorkerEvent::Fault => WorkerAction::AwaitAssignment,
        WorkerEvent::Cancel => WorkerAction::AwaitAssignment,
    }
}

/// One decision of the worker's loop.
///
/// The contract pins the result to [`step_state`] and [`step_action`] and
/// states the lifecycle discipline on top: the cell content changes only
/// when a fully completed depth is recorded or the fault sentinel goes
/// up; a new assignment restarts deepening at depth 1; observing
/// cancellation stops deepening and leaves the last fully completed
/// depth's result in the cell; a fault publishes the sentinel that
/// arbitration excludes and the coordinator can observe.
pub fn worker_step(s: WorkerState, e: WorkerEvent) -> (r: (WorkerState, WorkerAction))
    ensures
        r.0 == step_state(s, e),
        r.1 == step_action(s, e),
        s.wf() && event_wf(e) ==> r.0.wf(),
        r.0.published != s.published ==> (s.phase is Searching && (e is DepthDone
            || e is Fault)),
        e is DepthDone && s.phase is Searching ==> !r.0.published.faulted
            && r.0.published.depth == s.phase->Searching_depth
            && r.0.published.state == e->DepthDone_result,
        s.wf() && e is DepthDone && s.phase is Searching ==> r.0.published.is_valid(),
        e is Fault && s.phase is Searching ==> r.0.published.faulted
            && r.0.published.state.eval == EVAL_MIN && !r.0.published.is_valid(),
        e is Cancel ==> r.0.phase is Idle && r.0.published == s.published
            && r.1 is AwaitAssignment,
        e is Assign ==> r.1 == (WorkerAction::SearchDepth { root: e->Assign_root, depth: 1u8 }),
{
    match e {
        WorkerEvent::Assign { root } => (
            WorkerState {
                phase: WorkerPhase::Searching { root, depth: 1 },
                published: s.published,
            },
            WorkerAction::SearchDepth { root, depth: 1 },
        ),
        WorkerEvent::DepthDone { result } => match s.phase {
            WorkerPhase::Searching { root, depth } => {
                let published = Candidate { state: result, depth, faulted: false };
                if depth < MAX_DEPTH {
                    (
                        WorkerState {
                            phase: WorkerPhase::Searching { root, depth: depth + 1 },
                            published,
                        },
                        WorkerAction::SearchDepth { root, depth: depth + 1 },
                    )
                } else {
                    (
                        WorkerState { phase: WorkerPhase::Idle, published },
                        WorkerAction::AwaitAssignment,
                    )
                }
            },
            WorkerPhase::Idle => (s, WorkerAction::AwaitAssignment),
        },
        WorkerEvent::Fault => match s.phase {
            WorkerPhase::Searching { root, depth } => (
                WorkerState {
                    phase: WorkerPhase::Idle,
                    published: Candidate {
                        state: GameState { board: root, eval: EVAL_MIN },
                        depth: 0,
                        faulted: true,
                    },
                },
                WorkerAction::AwaitAssignment,
            ),
            WorkerPhase::Idle => (s, WorkerAction::AwaitAssignment),
        },
        WorkerEvent::Cancel => (
            WorkerState { phase: WorkerPhase::Idle, published: s.published },
            WorkerAction::AwaitAssignment,
        ),
    }
}

/// The state a worker reaches from `s` after observing `events` in order.
pub open spec fn run(s: WorkerState, events: Seq<WorkerEvent>) -> WorkerState
    decreases events.len(),
{
    if events.len() == 0 {
        s
    } else {
        run(step_state(s, events[0]), events.drop_first())
    }
}

/// Running a concatenation of event sequences is running them in turn.
pub proof fn lemma_run_append(s: WorkerState, a: Seq<WorkerEvent>, b: Seq<WorkerEvent>)
    ensures
        run(s, a + b) == run(run(s, a), b),
    decreases a.len(),
{
    if a.len() == 0 {
        assert(a + b =~= b);
    } else {
        assert((a + b).drop_first() =~= a.drop_first() + b);
        lemma_run_append(step_state(s, a[0]), a.drop_first(), b);
    }
}

/// An idle worker stays exactly as it is under any events but a new
/// assignment: nothing is searched and nothing is published.
pub proof fn lemma_idle_absorbs(s: WorkerState, events: Seq<WorkerEvent>)
    requires
        s.phase is Idle,
        forall|i: int| 0 <= i < events.len() ==> !(events[i] is Assign),
    ensures
        run(s, events) == s,
    decreases events.len(),
{
    if events.len() > 0 {
        assert(step_state(s, events[0]) == s);
        assert(forall|i: int|
            0 <= i < events.drop_first().len() ==> !(events.drop_first()[i] is Assign));
        lemma_idle_absorbs(s, events.drop_first());
    }
}

/// Cancellation bound. `events[k]` is the cancellation observation — the
/// worker's thread delivers it at the first depth boundary after the
/// cancellation request, so at most one in-flight depth separates the
/// request from `k`. From then on, as long as no new assignment arrives,
/// the worker is idle, never begins searching another depth, and its
/// published candidate stays exactly what it was when cancellation was
/// observed: the last fully completed depth's result.
pub proof fn lemma_cancellation_bound(s0: WorkerState, events: Seq<WorkerEvent>, k: int)
    requires
        0 <= k < events.len(),
        events[k] is Cancel,
        forall|i: int| k < i < events.len() ==> !(events[i] is Assign),
    ensures
        run(s0, events.take(k + 1)).phase is Idle,
        run(s0, events.take(k + 1)).published == run(s0, events.take(k)).published,
        forall|i: int|
            k < i <= events.len() ==> #[trigger] run(s0, events.take(i)) == run(
                s0,
                events.take(k + 1),
            ),
        forall|i: int|
            k < i < events.len() ==> !(#[trigger] step_action(run(s0, events.take(i)), events[i])
                is SearchDepth),
{
    let sk = run(s0, events.take(k));
    let sc = run(s0, events.take(k + 1));
    let single = seq![events[k]];
    assert(events.take(k + 1) =~= events.take(k) + single);
    lemma_run_append(s0, events.take(k), single);
    assert(single.drop_first().len() == 0);
    assert(run(step_state(sk, single[0]), single.drop_first()) == step_state(sk, events[k]));
    assert(run(sk, single) == step_state(sk, events[k]));
    assert(sc == step_state(sk, events[k]));
    assert(sc.phase is Idle && sc.published == sk.published);
    assert forall|i: int| k < i <= events.len() implies run(s0, events.take(i)) == sc by {
        let tail = events.subrange(k + 1, i);
        assert(events.take(i) =~= events.take(k + 1) + tail);
        lemma_run_append(s0, events.take(k + 1), tail);
        assert(forall|j: int| 0 <= j < tail.len() ==> !(tail[j] is Assign));
        lemma_idle_absorbs(sc, tail);
    }
    assert forall|i: int|
        k < i < events.len() implies !(step_action(run(s0, events.take(i)), events[i])
        is SearchDepth) by {
        assert(run(s0, events.take(i)) == sc);
        assert(!(events[i] is Assign));
    }
}

/// The pool: a fixed-size collection of workers, created once before the
/// first ply and reused, never resized. The threads, channels and shared
/// cells that animate these states are the embedding program's.
pub struct WorkerPool {
    pub workers: Vec<WorkerState>,
}

impl WorkerPool {
    /// Every worker idle with the placeholder published.
    pub open spec fn wf(self) -> bool {
        forall|i: int| 0 <= i < self.workers@.len() ==> (#[trigger] self.workers@[i]).wf()
    }

    /// Creates the pool's `n` workers in their initial state.
    pub fn new(n: usize) -> (r: WorkerPool)
        ensures
            r.workers@.len() == n,
            forall|i: int| 0 <= i < n ==> r.workers@[i] == WorkerState::initial_spec(),
            r.wf(),
    {
        proof {
            Board::lemma_start_wf();
            assert(WorkerState::initial_spec().wf());
        }
        let mut workers: Vec<WorkerState> = Vec::new();
        let mut i: usize = 0;
        while i < n
            invariant
                i <= n,
                workers@.len() == i,
                forall|j: int| 0 <= j < i ==> workers@[j] == WorkerState::initial_spec(),
            decreases n - i,
        {
            workers.push(WorkerState::new());
            i = i + 1;
        }
        WorkerPool { workers }
    }
}

} // verus!
