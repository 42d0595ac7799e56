//! Dispatch: the replies that a batch calls for, in order, and the bookkeeping of sending
//! them one after another.

use crate::reply::{planned_reply, reply, ReplyMessage, ReplyMessageModel};
use crate::webhook_event::{event_models, EventBatch, EventModel};
use vstd::prelude::*;

verus! {

/// The replies that a sequence of events calls for: for each event in turn, its planned
/// reply where it has one.
pub open spec fn planned_replies(events: Seq<EventModel>) -> Seq<ReplyMessageModel>
    decreases events.len(),
{
    if events.len() == 0 {
        Seq::empty()
    } else {
        let earlier = planned_replies(events.drop_last());
        match planned_reply(events.last()) {
            Some(planned) => earlier.push(planned),
            None => earlier,
        }
    }
}

/// How one outbound reply ended.
#[derive(Debug, Clone, Copy, PartialEq, Eq, Structural)]
pub enum ReplyOutcome {
    Sent,
    /// The transport reported an error.
    Failed,
}

/// The state of one dispatch: the replies to send, how many were attempted so far, and how
/// many of those failed.
pub struct DispatchModel {
    pub replies: Seq<ReplyMessageModel>,
    pub attempted: nat,
    pub failed: nat,
}

impl DispatchModel {
    /// No more failures than attempts, and no more attempts than replies.
    pub open spec fn well_formed(self) -> bool {
        self.failed <= self.attempted <= self.replies.len()
    }

    /// The state before anything was attempted.
    pub open spec fn start(replies: Seq<ReplyMessageModel>) -> DispatchModel {
        DispatchModel { replies, attempted: 0, failed: 0 }
    }

    /// The reply to attempt next, if one is left.
    pub open spec fn pending(self) -> Option<ReplyMessageModel> {
        if self.attempted < self.replies.len() {
            Some(self.replies[self.attempted as int])
        } else {
            None
        }
    }

    /// The state after the pending reply ended with `outcome`. Whatever the outcome, the
    /// dispatch moves on to the next reply. With nothing pending the state stays.
    pub open spec fn settle(self, outcome: ReplyOutcome) -> DispatchModel {
        if self.attempted < self.replies.len() {
            DispatchModel {
                replies: self.replies,
                attempted: self.attempted + 1,
                failed: if outcome == ReplyOutcome::Failed {
                    self.failed + 1
                } else {
                    self.failed
                },
            }
        } else {
            self
        }
    }

    /// The state after the outcomes came in, one per attempt.
    pub open spec fn run(self, outcomes: Seq<ReplyOutcome>) -> DispatchModel
        decreases outcomes.len(),
    {
        if outcomes.len() == 0 {
            self
        } else {
            self.settle(outcomes.first()).run(outcomes.drop_first())
        }
    }

    /// The replies that are attempted, in order, while the outcomes come in.
    pub open spec fn attempts(self, outcomes: Seq<ReplyOutcome>) -> Seq<ReplyMessageModel>
        decreases outcomes.len(),
    {
        if outcomes.len() == 0 {
            Seq::empty()
        } else {
            match self.pending() {
                Some(planned) => seq![planned] + self.settle(outcomes.first()).attempts(
                    outcomes.drop_first(),
                ),
                None => Seq::empty(),
            }
        }
    }
}

/// The models of a sequence of replies, one for one.
pub open spec fn reply_models(replies: Seq<ReplyMessage>) -> Seq<ReplyMessageModel> {
    Seq::new(replies.len(), |i: int| replies[i]@)
}

/// The replies of one batch and how far their sending has come.
#[derive(Debug)]
pub struct Dispatcher {
    replies: Vec<ReplyMessage>,
    attempted: usize,
    failed: usize,
}

impl View for Dispatcher {
    type V = DispatchModel;

    closed spec fn view(&self) -> DispatchModel {
        DispatchModel {
            replies: reply_models(self.replies@),
            attempted: self.attempted as nat,
            failed: self.failed as nat,
        }
    }
}

impl Dispatcher {
    #[verifier::type_invariant]
    spec fn well_formed(&self) -> bool {
        self.failed <= self.attempted <= self.replies@.len()
    }

    /// Whether anything is left to attempt.
    pub fn is_done(&self) -> (r: bool)
        ensures
            r == (self@.pending() is None),
    {
        self.attempted >= self.replies.len()
    }

    /// The reply to attempt next, if one is left.
    pub fn pending(&self) -> (r: Option<&ReplyMessage>)
        ensures
            self@.well_formed(),
            match r {
                Some(planned) => self@.pending() == Some(planned@),
                None => self@.pending() is None,
            },
    {
        proof {
            use_type_invariant(self);
        }
        if self.attempted < self.replies.len() {
            Some(&self.replies[self.attempted])
        } else {
            None
        }
    }

    /// Records how the pending reply ended, and moves on to the next one.
    pub fn settle(&mut self, outcome: ReplyOutcome)
        ensures
            final(self)@ == old(self)@.settle(outcome),
            final(self)@.well_formed(),
    {
        proof {
            use_type_invariant(&*self);
        }
        if self.attempted < self.replies.len() {
            self.attempted = self.attempted + 1;
            match outcome {
                ReplyOutcome::Failed => {
                    self.failed = self.failed + 1;
                },
                ReplyOutcome::Sent => {},
            }
        }
    }

    /// How many replies were attempted so far.
    pub fn attempted(&self) -> (r: usize)
        ensures
            r == self@.attempted,
    {
        self.attempted
    }

    /// How many of the attempted replies failed.
    pub fn failed(&self) -> (r: usize)
        ensures
            r == self@.failed,
    {
        self.failed
    }
}

/// Plans the dispatch of a batch: one reply for each event that calls for one, in the
/// batch's order, and nothing attempted yet.
pub fn webhook_handler(context: &EventBatch) -> (r: Dispatcher)
    ensures
        r@ == DispatchModel::start(planned_replies(context@.events)),
{
    let ghost events = event_models(context.events@);
    let mut replies: Vec<ReplyMessage> = Vec::new();
    let mut i: usize = 0;
    while i < context.events.len()
        invariant
            i <= context.events.len(),
            events == event_models(context.events@),
            reply_models(replies@) == planned_replies(events.take(i as int)),
            replies@.len() <= i,
        decreases context.events.len() - i,
    {
        proof {
            assert(events.take(i + 1).drop_last() == events.take(i as int));
        }
        match reply(&context.events[i]) {
            Some(planned) => replies.push(planned),
            None => {},
        }
        i += 1;
    }
    proof {
        assert(events.take(i as int) == events);
    }
    Dispatcher { replies, attempted: 0, failed: 0 }
}

} // verus!
