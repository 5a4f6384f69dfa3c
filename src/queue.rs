use vstd::prelude::*;

use crate::records::{SubmitionResult, VerifyProof};
use crate::registry::ProofRegistry;

verus! {

/// The pending verification requests, oldest first. The same `tx_id` may
/// stand in it several times.
pub struct VerificationQueue {
    items: std::collections::VecDeque<VerifyProof>,
}

/// The queue after a submission of `req`: appended at the tail when its
/// `tx_id` is registered, unchanged otherwise.
pub open spec fn submitted(
    q: Seq<VerifyProof>,
    reg: Map<Seq<char>, crate::records::Plonky2Proof>,
    req: VerifyProof,
) -> Seq<VerifyProof> {
    if reg.contains_key(req.tx_id@) {
        q.push(req)
    } else {
        q
    }
}

/// A submission for an unregistered `tx_id` is rejected and leaves the queue
/// as it was; one for a registered `tx_id` is accepted, placed at the tail,
/// and taken up by the worker exactly once, after everything queued before it.
pub proof fn lemma_enqueue_gating(
    q: Seq<VerifyProof>,
    reg: Map<Seq<char>, crate::records::Plonky2Proof>,
    req: VerifyProof,
)
    ensures
        !reg.contains_key(req.tx_id@) ==> submitted(q, reg, req) == q,
        reg.contains_key(req.tx_id@) ==> {
            let q2 = submitted(q, reg, req);
            &&& q2 == q.push(req)
            &&& crate::worker::processed(q2, q2.len()) == q.push(req)
        },
{
    if reg.contains_key(req.tx_id@) {
        crate::worker::lemma_processed_in_order(q.push(req), q.push(req).len());
    }
}

impl VerificationQueue {
    /// The pending requests, head first.
    pub closed spec fn view(&self) -> Seq<VerifyProof> {
        self.items@
    }

    /// An empty queue.
    pub fn new() -> (r: VerificationQueue)
        ensures
            r@ == Seq::<VerifyProof>::empty(),
    {
        VerificationQueue { items: std::collections::VecDeque::new() }
    }

    /// The number of pending requests.
    pub fn len(&self) -> (r: usize)
        ensures
            r == self@.len(),
    {
        self.items.len()
    }

    /// Whether no request is pending.
    pub fn is_empty(&self) -> (r: bool)
        ensures
            r == (self@.len() == 0),
    {
        self.items.len() == 0
    }

    /// Appends `req` at the tail. Callers outside this crate go through
    /// `submit_verification`, which admits only registered ids.
    pub(crate) fn enqueue(&mut self, req: VerifyProof)
        ensures
            final(self)@ == old(self)@.push(req),
    {
        self.items.push_back(req);
    }

    /// Removes and returns the head, or `None` when the queue is empty.
    pub fn dequeue(&mut self) -> (r: Option<VerifyProof>)
        ensures
            old(self)@.len() == 0 ==> r is None && final(self)@ == old(self)@,
            old(self)@.len() > 0 ==> r == Some(old(self)@[0]) && final(self)@
                == old(self)@.drop_first(),
    {
        let r = self.items.pop_front();
        proof {
            if old(self)@.len() > 0 {
                assert(self@ =~= old(self)@.drop_first());
            }
        }
        r
    }
}

/// Accepts `req` into the queue only when its `tx_id` is registered at the
/// moment of the call, and reports which happened.
pub fn submit_verification(
    queue: &mut VerificationQueue,
    registry: &ProofRegistry,
    req: VerifyProof,
) -> (r: SubmitionResult)
    ensures
        r.is_submitted == registry@.contains_key(req.tx_id@),
        final(queue)@ == submitted(old(queue)@, registry@, req),
{
    if registry.contains(&req.tx_id) {
        queue.enqueue(req);
        SubmitionResult { is_submitted: true }
    } else {
        SubmitionResult { is_submitted: false }
    }
}

} // verus!
