//! The boundary to the completion endpoint.
//!
//! The endpoint itself is an outside collaborator: a conversation goes out,
//! raw text or a transport failure comes back. The caller performs those
//! calls and records each result as a `TransportOutcome`; a `CompletionFeed`
//! holds the recorded outcomes in order, and the verified orchestration
//! consumes them one by one. Everything the library proves about retries and
//! sequencing is stated over the remaining outcomes of the feed.

use vstd::prelude::*;

verus! {

/// Failure to reach the completion endpoint. The single retry in
/// `ai_task_request` recovers from one of these; the second is fatal.
#[derive(Debug, Clone, Copy, PartialEq, Eq, Structural)]
pub struct TransportError {}

/// What one call to the completion endpoint produced: the raw reply text,
/// or a transport failure.
#[derive(Debug)]
pub enum TransportOutcome {
    Text(String),
    Failed,
}

impl Clone for TransportOutcome {
    fn clone(&self) -> (r: Self)
        ensures
            r == *self,
    {
        match self {
            TransportOutcome::Text(s) => TransportOutcome::Text(s.clone()),
            TransportOutcome::Failed => TransportOutcome::Failed,
        }
    }
}

/// The reply text carried by an outcome, if it succeeded.
pub open spec fn outcome_text(o: TransportOutcome) -> Option<Seq<char>> {
    match o {
        TransportOutcome::Text(s) => Some(s@),
        TransportOutcome::Failed => None,
    }
}

/// Transport outcomes recorded from the completion endpoint, consumed front
/// to back. One feed carries the outcomes of one run, in the order the
/// orchestration asks for them.
pub struct CompletionFeed {
    outcomes: Vec<TransportOutcome>,
    next: usize,
}

impl CompletionFeed {
    /// The consumption position never runs past the recorded outcomes.
    pub closed spec fn wf(self) -> bool {
        self.next <= self.outcomes@.len()
    }

    /// The outcomes not yet consumed, in order.
    pub closed spec fn remaining(self) -> Seq<TransportOutcome> {
        self.outcomes@.skip(self.next as int)
    }

    /// How many outcomes have been consumed so far.
    pub closed spec fn consumed(self) -> int {
        self.next as int
    }

    pub fn new(outcomes: Vec<TransportOutcome>) -> (r: Self)
        ensures
            r.wf(),
            r.remaining() == outcomes@,
            r.consumed() == 0,
    {
        let r = CompletionFeed { outcomes, next: 0 };
        proof {
            assert(r.remaining() =~= r.outcomes@);
        }
        r
    }

    /// Record one more outcome at the back of the feed.
    pub fn push(&mut self, outcome: TransportOutcome)
        requires
            old(self).wf(),
        ensures
            final(self).wf(),
            final(self).remaining() == old(self).remaining().push(outcome),
            final(self).consumed() == old(self).consumed(),
    {
        self.outcomes.push(outcome);
        proof {
            assert(self.remaining() =~= old(self).remaining().push(outcome));
        }
    }

    /// How many outcomes are left to consume.
    pub fn remaining_count(&self) -> (r: usize)
        requires
            self.wf(),
        ensures
            r as int == self.remaining().len(),
    {
        self.outcomes.len() - self.next
    }

    /// Consume the front outcome, if one is left.
    pub fn take(&mut self) -> (r: Option<TransportOutcome>)
        requires
            old(self).wf(),
        ensures
            final(self).wf(),
            old(self).remaining().len() > 0 ==> {
                &&& r == Some(old(self).remaining()[0])
                &&& final(self).remaining() == old(self).remaining().drop_first()
                &&& final(self).consumed() == old(self).consumed() + 1
            },
            old(self).remaining().len() == 0 ==> r is None && *final(self) == *old(self),
    {
        if self.next < self.outcomes.len() {
            let o = (&self.outcomes[self.next]).clone();
            self.next = self.next + 1;
            proof {
                assert(self.remaining() =~= old(self).remaining().drop_first());
            }
            Some(o)
        } else {
            None
        }
    }
}

/// How many outcomes one task request consumes from the front of `rem`:
/// one attempt when the first succeeds, a single retry otherwise, and never
/// more than two.
pub open spec fn request_consumed(rem: Seq<TransportOutcome>) -> int {
    if rem.len() == 0 {
        0
    } else if outcome_text(rem[0]) is Some {
        1
    } else if rem.len() == 1 {
        1
    } else {
        2
    }
}

/// The text one task request yields from the front of `rem`: the first
/// outcome's text, the second's after one failure, and nothing once both
/// attempts fail or no outcome is left.
pub open spec fn request_result(rem: Seq<TransportOutcome>) -> Option<Seq<char>> {
    if rem.len() == 0 {
        None
    } else if outcome_text(rem[0]) is Some {
        outcome_text(rem[0])
    } else if rem.len() >= 2 {
        outcome_text(rem[1])
    } else {
        None
    }
}

} // verus!
