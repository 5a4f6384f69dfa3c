use vstd::prelude::*;

use crate::queue::VerificationQueue;
use crate::records::{Plonky2Proof, PostVerificationResult, VerificationError, VerifyProof};
use crate::registry::ProofRegistry;

verus! {

/// How long the worker waits after finding the queue empty.
pub const POLL_INTERVAL_MS: u64 = 100;

/// Where the single worker stands. `Verifying` and `Reporting` together make
/// up the processing of one request.
#[derive(Debug)]
pub enum WorkerState {
    /// The queue was last observed empty, or the last request is done.
    Idle,
    /// The artifacts registered under `tx_id` are being checked.
    Verifying { tx_id: String },
    /// The outcome for `tx_id` is being sent to the peer service.
    Reporting { tx_id: String },
}

/// What the worker asks its driver to do next.
#[derive(Debug)]
pub enum WorkerAction {
    /// Wait this many milliseconds, then poll again.
    Sleep { millis: u64 },
    /// A request is still being processed: finish it first.
    Busy,
    /// Check the proof at these artifact locations, then call `complete`.
    Verify { tx_id: String, proof: Plonky2Proof },
    /// Send this result to the peer service, then call `dispatched`.
    Report { result: PostVerificationResult },
}

/// What checking one proof came to.
#[derive(Debug, Clone, Copy, PartialEq, Eq, Structural)]
pub enum VerifyOutcome {
    /// The proof was read and is valid.
    Valid,
    /// The proof was read and is not valid.
    Invalid,
    /// The artifacts could not be read or decoded.
    Error,
}

/// The single consumer of the verification queue.
#[derive(Debug)]
pub struct Worker {
    state: WorkerState,
}

/// The queue after one poll: the head is taken only by an idle worker.
pub open spec fn queue_after_poll(s: WorkerState, q: Seq<VerifyProof>) -> Seq<VerifyProof> {
    if s is Idle && q.len() > 0 {
        q.drop_first()
    } else {
        q
    }
}

/// The request that one poll takes up, if any.
pub open spec fn taken_by_poll(s: WorkerState, q: Seq<VerifyProof>) -> Option<VerifyProof> {
    if s is Idle && q.len() > 0 {
        Some(q[0])
    } else {
        None
    }
}

/// The worker's state after one poll.
pub open spec fn state_after_poll(
    s: WorkerState,
    q: Seq<VerifyProof>,
    reg: Map<Seq<char>, Plonky2Proof>,
) -> WorkerState {
    if s is Idle && q.len() > 0 {
        if reg.contains_key(q[0].tx_id@) {
            WorkerState::Verifying { tx_id: q[0].tx_id }
        } else {
            WorkerState::Reporting { tx_id: q[0].tx_id }
        }
    } else {
        s
    }
}

/// The action that one poll asks for. A request whose `tx_id` has no
/// registry entry is neither dropped nor checked: it is reported with the
/// verification error `NotRegistered`.
pub open spec fn action_of_poll(
    s: WorkerState,
    q: Seq<VerifyProof>,
    reg: Map<Seq<char>, Plonky2Proof>,
) -> WorkerAction {
    if !(s is Idle) {
        WorkerAction::Busy
    } else if q.len() == 0 {
        WorkerAction::Sleep { millis: POLL_INTERVAL_MS }
    } else if reg.contains_key(q[0].tx_id@) {
        WorkerAction::Verify { tx_id: q[0].tx_id, proof: reg[q[0].tx_id@] }
    } else {
        WorkerAction::Report {
            result: PostVerificationResult {
                tx_id: q[0].tx_id,
                is_valid: false,
                error: Some(VerificationError::NotRegistered),
            },
        }
    }
}

/// The result reported for `tx_id` after a check that came to `outcome`:
/// valid only for `Valid`, and carrying the verification error `Artifacts`
/// for `Error`, so that it differs from a proof found not valid.
pub open spec fn result_for(tx_id: String, outcome: VerifyOutcome) -> PostVerificationResult {
    PostVerificationResult {
        tx_id,
        is_valid: outcome is Valid,
        error: if outcome is Error {
            Some(VerificationError::Artifacts)
        } else {
            None
        },
    }
}

/// The worker's state after `complete`: a check in progress moves on to
/// reporting; any other state stays.
pub open spec fn state_after_complete(s: WorkerState) -> WorkerState {
    match s {
        WorkerState::Verifying { tx_id } => WorkerState::Reporting { tx_id },
        _ => s,
    }
}

/// The worker's state after `dispatched`: a report in progress ends the
/// processing; any other state stays.
pub open spec fn state_after_dispatch(s: WorkerState) -> WorkerState {
    match s {
        WorkerState::Reporting { .. } => WorkerState::Idle,
        _ => s,
    }
}

/// The requests taken up, in order, by `n` rounds of the worker started
/// idle on queue `q`, where each round polls once and, when it took a
/// request, sees it through `complete` and `dispatched`.
pub open spec fn processed(q: Seq<VerifyProof>, n: nat) -> Seq<VerifyProof>
    decreases n,
{
    if n == 0 {
        Seq::empty()
    } else if taken_by_poll(WorkerState::Idle, q) is Some {
        seq![q[0]] + processed(queue_after_poll(WorkerState::Idle, q), (n - 1) as nat)
    } else {
        processed(q, (n - 1) as nat)
    }
}

/// One round that takes a request, with any outcome of the check, ends with
/// the worker idle again, ready for the next request.
pub proof fn lemma_round_returns_idle(q: Seq<VerifyProof>, reg: Map<Seq<char>, Plonky2Proof>)
    requires
        q.len() > 0,
    ensures
        state_after_dispatch(
            state_after_complete(state_after_poll(WorkerState::Idle, q, reg)),
        ) is Idle,
{
}

/// At most one request is processed at a time: while a request is being
/// processed, a poll takes nothing from the queue and leaves the state as it
/// is; and a poll that takes a request leaves the worker busy.
pub proof fn lemma_one_at_a_time(
    s: WorkerState,
    q: Seq<VerifyProof>,
    reg: Map<Seq<char>, Plonky2Proof>,
)
    ensures
        !(s is Idle) ==> {
            &&& taken_by_poll(s, q) is None
            &&& queue_after_poll(s, q) == q
            &&& state_after_poll(s, q, reg) == s
            &&& action_of_poll(s, q, reg) is Busy
        },
        taken_by_poll(s, q) is Some ==> !(state_after_poll(s, q, reg) is Idle),
{
}

/// An idle worker facing an empty queue verifies nothing: it waits one
/// polling interval and stays idle with the queue untouched. Once a request
/// for a registered `tx_id` has been accepted, the next poll takes it up.
pub proof fn lemma_idle_polling(
    q: Seq<VerifyProof>,
    reg: Map<Seq<char>, Plonky2Proof>,
    req: VerifyProof,
)
    requires
        q.len() == 0,
    ensures
        action_of_poll(WorkerState::Idle, q, reg) == (WorkerAction::Sleep {
            millis: POLL_INTERVAL_MS,
        }),
        POLL_INTERVAL_MS == 100,
        state_after_poll(WorkerState::Idle, q, reg) is Idle,
        queue_after_poll(WorkerState::Idle, q) == q,
        reg.contains_key(req.tx_id@) ==> {
            let q2 = crate::queue::submitted(q, reg, req);
            &&& taken_by_poll(WorkerState::Idle, q2) == Some(req)
            &&& action_of_poll(WorkerState::Idle, q2, reg) == (WorkerAction::Verify {
                tx_id: req.tx_id,
                proof: reg[req.tx_id@],
            })
        },
{
}

/// The worker takes up every queued request exactly once, in queue order.
pub proof fn lemma_processed_in_order(q: Seq<VerifyProof>, n: nat)
    requires
        n >= q.len(),
    ensures
        processed(q, n) == q,
    decreases n,
{
    if n > 0 {
        if q.len() > 0 {
            lemma_processed_in_order(q.drop_first(), (n - 1) as nat);
            assert(seq![q[0]] + q.drop_first() =~= q);
        } else {
            lemma_processed_in_order(q, (n - 1) as nat);
        }
    } else {
        assert(q =~= Seq::<VerifyProof>::empty());
    }
}

/// Requests for registered ids `a`, `b`, `c`, submitted in that order to an
/// empty queue, are processed in that order.
pub proof fn lemma_fifo_order(
    reg: Map<Seq<char>, Plonky2Proof>,
    a: VerifyProof,
    b: VerifyProof,
    c: VerifyProof,
)
    requires
        reg.contains_key(a.tx_id@),
        reg.contains_key(b.tx_id@),
        reg.contains_key(c.tx_id@),
    ensures
        processed(
            crate::queue::submitted(
                crate::queue::submitted(
                    crate::queue::submitted(Seq::empty(), reg, a),
                    reg,
                    b,
                ),
                reg,
                c,
            ),
            3,
        ) == seq![a, b, c],
{
    let q = crate::queue::submitted(
        crate::queue::submitted(crate::queue::submitted(Seq::empty(), reg, a), reg, b),
        reg,
        c,
    );
    assert(q =~= seq![a, b, c]);
    lemma_processed_in_order(q, 3);
}

/// Whether the worker's state or a queued request concerns `t`.
pub open spec fn mentions(s: WorkerState, q: Seq<VerifyProof>, t: Seq<char>) -> bool {
    (match s {
        WorkerState::Idle => false,
        WorkerState::Verifying { tx_id } => tx_id@ == t,
        WorkerState::Reporting { tx_id } => tx_id@ == t,
    }) || exists|i: int| 0 <= i < q.len() && (#[trigger] q[i]).tx_id@ == t
}

/// The id that an action asks to check or report, if any.
pub open spec fn action_tx_id(a: WorkerAction) -> Option<Seq<char>> {
    match a {
        WorkerAction::Verify { tx_id, .. } => Some(tx_id@),
        WorkerAction::Report { result } => Some(result.tx_id@),
        _ => None,
    }
}

/// An id that is never registered is never checked and never reported.
/// A fresh worker on an empty queue does not concern it; as long as it stays
/// unregistered, no submission, poll, completion or hand-over makes the
/// worker or its queue concern it, and no poll or completion names it.
pub proof fn lemma_unregistered_never_reported(
    s: WorkerState,
    q: Seq<VerifyProof>,
    reg: Map<Seq<char>, Plonky2Proof>,
    t: Seq<char>,
    req: VerifyProof,
    outcome: VerifyOutcome,
)
    requires
        !reg.contains_key(t),
        !mentions(s, q, t),
    ensures
        !mentions(WorkerState::Idle, Seq::empty(), t),
        !mentions(s, crate::queue::submitted(q, reg, req), t),
        action_tx_id(action_of_poll(s, q, reg)) != Some(t),
        !mentions(state_after_poll(s, q, reg), queue_after_poll(s, q), t),
        s matches WorkerState::Verifying { tx_id } ==> result_for(tx_id, outcome).tx_id@ != t,
        !mentions(state_after_complete(s), q, t),
        !mentions(state_after_dispatch(s), q, t),
{
    let q2 = crate::queue::submitted(q, reg, req);
    if exists|i: int| 0 <= i < q2.len() && (#[trigger] q2[i]).tx_id@ == t {
        let i = choose|i: int| 0 <= i < q2.len() && (#[trigger] q2[i]).tx_id@ == t;
        if i < q.len() {
            assert(q[i] == q2[i]);
        }
    }
    if s is Idle && q.len() > 0 {
        assert(q[0].tx_id@ != t);
        let q3 = q.drop_first();
        if exists|i: int| 0 <= i < q3.len() && (#[trigger] q3[i]).tx_id@ == t {
            let i = choose|i: int| 0 <= i < q3.len() && (#[trigger] q3[i]).tx_id@ == t;
            assert(q[i + 1] == q3[i]);
        }
    }
}

impl Worker {
    /// The worker's current state.
    pub closed spec fn view(&self) -> WorkerState {
        self.state
    }

    /// The worker's current state.
    pub fn current(&self) -> (r: &WorkerState)
        ensures
            *r == self@,
    {
        &self.state
    }

    /// A worker that has processed nothing yet.
    pub fn new() -> (r: Worker)
        ensures
            r@ is Idle,
    {
        Worker { state: WorkerState::Idle }
    }

    /// Whether no request is being processed.
    pub fn is_idle(&self) -> (r: bool)
        ensures
            r == self@ is Idle,
    {
        match self.state {
            WorkerState::Idle => true,
            _ => false,
        }
    }

    /// One look at the queue. An idle worker takes the head, if there is one,
    /// and resolves it against the registry; a busy worker touches nothing.
    pub fn poll(&mut self, queue: &mut VerificationQueue, registry: &ProofRegistry) -> (r:
        WorkerAction)
        ensures
            final(self)@ == state_after_poll(old(self)@, old(queue)@, registry@),
            final(queue)@ == queue_after_poll(old(self)@, old(queue)@),
            r == action_of_poll(old(self)@, old(queue)@, registry@),
    {
        if !self.is_idle() {
            return WorkerAction::Busy;
        }
        match queue.dequeue() {
            None => WorkerAction::Sleep { millis: POLL_INTERVAL_MS },
            Some(req) => {
                match registry.lookup(&req.tx_id) {
                    Some(proof) => {
                        self.state = WorkerState::Verifying { tx_id: req.tx_id.clone() };
                        WorkerAction::Verify { tx_id: req.tx_id, proof: proof.copy() }
                    },
                    None => {
                        self.state = WorkerState::Reporting { tx_id: req.tx_id.clone() };
                        WorkerAction::Report {
                            result: PostVerificationResult {
                                tx_id: req.tx_id,
                                is_valid: false,
                                error: Some(VerificationError::NotRegistered),
                            },
                        }
                    },
                }
            },
        }
    }

    /// Records the outcome of the check in progress and returns the result to
    /// report. Outside `Verifying` nothing changes and `None` comes back.
    pub fn complete(&mut self, outcome: VerifyOutcome) -> (r: Option<PostVerificationResult>)
        ensures
            final(self)@ == state_after_complete(old(self)@),
            match old(self)@ {
                WorkerState::Verifying { tx_id } => r == Some(result_for(tx_id, outcome)),
                _ => r is None,
            },
    {
        match &self.state {
            WorkerState::Verifying { tx_id } => {
                let (is_valid, error) = match outcome {
                    VerifyOutcome::Valid => (true, None),
                    VerifyOutcome::Invalid => (false, None),
                    VerifyOutcome::Error => (false, Some(VerificationError::Artifacts)),
                };
                let tx_id = tx_id.clone();
                let result = PostVerificationResult { tx_id: tx_id.clone(), is_valid, error };
                self.state = WorkerState::Reporting { tx_id };
                Some(result)
            },
            _ => None,
        }
    }

    /// Marks the report in progress as handed over, whatever the peer
    /// answered, and returns to `Idle`. Outside `Reporting` nothing changes.
    pub fn dispatched(&mut self) -> (r: bool)
        ensures
            r == old(self)@ is Reporting,
            final(self)@ == state_after_dispatch(old(self)@),
    {
        match self.state {
            WorkerState::Reporting { .. } => {
                self.state = WorkerState::Idle;
                true
            },
            _ => false,
        }
    }
}

} // verus!
