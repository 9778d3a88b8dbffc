//! The bounded queue between the HTTP front-end and the worker pool.
//!
//! The transport that carries it across threads lives with the process; this
//! model fixes what sending, receiving and closing mean, in particular that a
//! send on a closed queue fails deterministically and hands the request back
//! — nothing is dropped in silence.

use vstd::prelude::*;

use crate::communication::{EvalRequest, EvalRequestView};

verus! {

/// The shared bounded queue of evaluation requests.
pub struct EvalQueue {
    capacity: usize,
    closed: bool,
    pending: Vec<EvalRequest>,
}

/// Why a send failed; either way the request comes back to the sender.
pub enum SendError {
    Closed(EvalRequest),
    Full(EvalRequest),
}

impl EvalQueue {
    /// The requests queued and not yet handed to a worker, oldest first.
    pub closed spec fn contents(&self) -> Seq<EvalRequestView> {
        self.pending.deep_view()
    }

    /// Whether the queue was closed for senders.
    pub closed spec fn is_closed(&self) -> bool {
        self.closed
    }

    /// The bound the queue was created with.
    pub closed spec fn capacity(&self) -> int {
        self.capacity as int
    }

    /// The queue never holds more than its bound.
    pub open spec fn wf(&self) -> bool {
        self.contents().len() <= self.capacity()
    }

    /// An open, empty queue with the given bound.
    pub fn new(capacity: usize) -> (r: EvalQueue)
        requires
            capacity >= 1,
        ensures
            r.wf(),
            !r.is_closed(),
            r.capacity() == capacity as int,
            r.contents() == Seq::<EvalRequestView>::empty(),
    {
        let r = EvalQueue { capacity, closed: false, pending: Vec::new() };
        proof {
            assert(r.contents() =~= Seq::<EvalRequestView>::empty());
        }
        r
    }

    /// Queues a request. On a closed queue the send fails deterministically
    /// and the request comes back untouched; on a full queue likewise, and
    /// the sender waits for capacity; otherwise the request is appended.
    pub fn send(&mut self, req: EvalRequest) -> (r: Result<(), SendError>)
        requires
            old(self).wf(),
        ensures
            final(self).wf(),
            final(self).capacity() == old(self).capacity(),
            final(self).is_closed() == old(self).is_closed(),
            old(self).is_closed() ==> (r matches Err(SendError::Closed(q)) && q@ == req@)
                && final(self).contents() == old(self).contents(),
            !old(self).is_closed() && old(self).contents().len() == old(self).capacity() ==> (r
                matches Err(SendError::Full(q)) && q@ == req@) && final(self).contents() == old(
                self,
            ).contents(),
            !old(self).is_closed() && old(self).contents().len() < old(self).capacity() ==> r
                is Ok && final(self).contents() == old(self).contents().push(req@),
    {
        if self.closed {
            return Err(SendError::Closed(req));
        }
        if self.pending.len() == self.capacity {
            return Err(SendError::Full(req));
        }
        let ghost contents_pre = self.contents();
        let ghost req_view = req@;
        self.pending.push(req);
        proof {
            assert(self.contents() =~= contents_pre.push(req_view));
        }
        Ok(())
    }

    /// Hands out the oldest queued request, or nothing when the queue is
    /// empty (drained and closed, in the transport's terms).
    pub fn recv(&mut self) -> (r: Option<EvalRequest>)
        requires
            old(self).wf(),
        ensures
            final(self).wf(),
            final(self).capacity() == old(self).capacity(),
            final(self).is_closed() == old(self).is_closed(),
            old(self).contents().len() == 0 ==> r is None && final(self).contents() == old(
                self,
            ).contents(),
            old(self).contents().len() > 0 ==> (r matches Some(q) && q@ == old(self).contents()[0])
                && final(self).contents() == old(self).contents().subrange(
                1,
                old(self).contents().len() as int,
            ),
    {
        if self.pending.len() == 0 {
            None
        } else {
            let ghost contents_pre = self.contents();
            let q = self.pending.remove(0);
            proof {
                assert(self.contents() =~= contents_pre.subrange(1, contents_pre.len() as int));
            }
            Some(q)
        }
    }

    /// Closes the queue for senders; what was queued stays receivable.
    pub fn close(&mut self)
        requires
            old(self).wf(),
        ensures
            final(self).wf(),
            final(self).is_closed(),
            final(self).capacity() == old(self).capacity(),
            final(self).contents() == old(self).contents(),
    {
        self.closed = true;
    }
}

} // verus!
