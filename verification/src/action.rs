//! The action batching service: it coalesces per-tick commands into
//! batched requests.
//!
//! Bots enqueue domain actions and debug commands at any time; a control
//! step flushes both batches as two combined requests through the
//! connection actor's request client, sequentially, clearing each batch
//! only once its request succeeded. A failed flush propagates the error to
//! the stepper and leaves the queued items in place: a re-step redelivers
//! at least once, never exactly once.

use vstd::prelude::*;
use crate::client::Request;
use crate::data::{Action, DebugCommand};
use crate::errors::Error;

verus! {

/// Where a step's two-request flush stands.
#[derive(Debug, Copy, Clone, Eq, PartialEq, Structural)]
pub enum FlushPhase {
    /// No flush is under way.
    Idle,
    /// The combined action request is out, awaiting its result.
    SendingActions,
    /// The combined debug request is out, awaiting its result.
    SendingDebug,
}

/// The batching service: two independent batches and the state of the
/// current flush.
#[derive(Debug)]
pub struct ActionService {
    /// Domain actions queued since the last successful flush.
    pub action_batch: Vec<Action>,
    /// Debug commands queued since the last successful flush.
    pub debug_batch: Vec<DebugCommand>,
    /// Where the current flush stands.
    pub phase: FlushPhase,
}

impl ActionService {
    /// A fresh service with empty batches.
    pub fn new() -> (s: ActionService)
        ensures
            s.action_batch@ =~= Seq::<Action>::empty(),
            s.debug_batch@ =~= Seq::<DebugCommand>::empty(),
            s.phase is Idle,
    {
        ActionService { action_batch: Vec::new(), debug_batch: Vec::new(), phase: FlushPhase::Idle }
    }

    /// Durably queues one action; the ack to the caller means queued, not
    /// sent.
    pub fn send_action(&mut self, action: Action)
        ensures
            final(self).action_batch@ == old(self).action_batch@.push(action),
            final(self).debug_batch@ == old(self).debug_batch@,
            final(self).phase == old(self).phase,
    {
        self.action_batch.push(action);
    }

    /// Durably queues one debug command.
    pub fn send_debug(&mut self, cmd: DebugCommand)
        ensures
            final(self).debug_batch@ == old(self).debug_batch@.push(cmd),
            final(self).action_batch@ == old(self).action_batch@,
            final(self).phase == old(self).phase,
    {
        self.debug_batch.push(cmd);
    }

    /// Begins a step: emits exactly one combined request holding every
    /// queued action in enqueue order. The batch is kept until the
    /// request's result comes back.
    pub fn step(&mut self) -> (r: Result<Request, Error>)
        ensures
            if old(self).phase is Idle {
                &&& r matches Ok(req) && req matches Request::Action(v) && v@ == old(self).action_batch@
                &&& final(self).phase is SendingActions
                &&& final(self).action_batch@ == old(self).action_batch@
                &&& final(self).debug_batch@ == old(self).debug_batch@
            } else {
                r == Err::<Request, Error>(Error::UnexpectedMessage) && *final(self) == *old(self)
            },
    {
        match self.phase {
            FlushPhase::Idle => {
                self.phase = FlushPhase::SendingActions;
                Ok(Request::Action(copy_actions(&self.action_batch)))
            },
            _ => Err(Error::UnexpectedMessage),
        }
    }

    /// Takes the result of the outstanding combined request. A success
    /// clears the batch it carried and either emits the combined debug
    /// request (after the action request) or completes the step (after the
    /// debug request). A failure ends the step with the error and clears
    /// nothing.
    pub fn on_request_result(&mut self, outcome: Result<(), Error>) -> (r: Result<
        Option<Request>,
        Error,
    >)
        ensures
            match old(self).phase {
                FlushPhase::Idle => r == Err::<Option<Request>, Error>(Error::UnexpectedMessage)
                    && *final(self) == *old(self),
                FlushPhase::SendingActions => match outcome {
                    Result::Ok(_) => {
                        &&& r matches Ok(opt) && opt matches Some(req) && req matches
                            Request::Debug(v) && v@ == old(self).debug_batch@
                        &&& final(self).action_batch@ =~= Seq::<Action>::empty()
                        &&& final(self).debug_batch@ == old(self).debug_batch@
                        &&& final(self).phase is SendingDebug
                    },
                    Result::Err(e) => r == Err::<Option<Request>, Error>(e) && final(self).action_batch@ == old(self).action_batch@ && final(self).debug_batch@ == old(self).debug_batch@ && final(self).phase is Idle,
                },
                FlushPhase::SendingDebug => match outcome {
                    Result::Ok(_) => {
                        &&& r == Ok::<Option<Request>, Error>(None)
                        &&& final(self).debug_batch@ =~= Seq::<DebugCommand>::empty()
                        &&& final(self).action_batch@ == old(self).action_batch@
                        &&& final(self).phase is Idle
                    },
                    Result::Err(e) => r == Err::<Option<Request>, Error>(e) && final(self).action_batch@ == old(self).action_batch@ && final(self).debug_batch@ == old(self).debug_batch@ && final(self).phase is Idle,
                },
            },
    {
        match self.phase {
            FlushPhase::Idle => Err(Error::UnexpectedMessage),
            FlushPhase::SendingActions => match outcome {
                Result::Ok(_) => {
                    self.action_batch.clear();
                    self.phase = FlushPhase::SendingDebug;
                    Ok(Some(Request::Debug(copy_debugs(&self.debug_batch))))
                },
                Result::Err(e) => {
                    self.phase = FlushPhase::Idle;
                    Err(e)
                },
            },
            FlushPhase::SendingDebug => match outcome {
                Result::Ok(_) => {
                    self.debug_batch.clear();
                    self.phase = FlushPhase::Idle;
                    Ok(None)
                },
                Result::Err(e) => {
                    self.phase = FlushPhase::Idle;
                    Err(e)
                },
            },
        }
    }
}

/// Copies an action batch element by element.
fn copy_actions(v: &Vec<Action>) -> (r: Vec<Action>)
    ensures
        r@ == v@,
{
    let mut r: Vec<Action> = Vec::new();
    let mut i: usize = 0;
    while i < v.len()
        invariant
            i <= v.len(),
            r@ == v@.take(i as int),
        decreases v.len() - i,
    {
        r.push(v[i]);
        proof {
            assert(v@.take(i + 1 as int).drop_last() =~= v@.take(i as int));
            assert(r@ =~= v@.take(i + 1 as int));
        }
        i = i + 1;
    }
    proof {
        assert(v@.take(v@.len() as int) =~= v@);
    }
    r
}

/// Copies a debug batch element by element.
fn copy_debugs(v: &Vec<DebugCommand>) -> (r: Vec<DebugCommand>)
    ensures
        r@ == v@,
{
    let mut r: Vec<DebugCommand> = Vec::new();
    let mut i: usize = 0;
    while i < v.len()
        invariant
            i <= v.len(),
            r@ == v@.take(i as int),
        decreases v.len() - i,
    {
        r.push(v[i]);
        proof {
            assert(v@.take(i + 1 as int).drop_last() =~= v@.take(i as int));
            assert(r@ =~= v@.take(i + 1 as int));
        }
        i = i + 1;
    }
    proof {
        assert(v@.take(v@.len() as int) =~= v@);
    }
    r
}

/// The action batch after actions are enqueued in order on an empty
/// service, per `send_action`'s contract.
pub open spec fn batch_after_enqueues(actions: Seq<Action>) -> Seq<Action>
    decreases actions.len(),
{
    if actions.len() == 0 {
        Seq::empty()
    } else {
        batch_after_enqueues(actions.drop_last()).push(actions.last())
    }
}

/// Batching law: enqueue any actions in order on a fresh service, then
/// step once. The batch then holds exactly those actions in enqueue
/// order, so by `step`'s contract the connection actor receives exactly
/// one combined action request carrying all of them in that order — and,
/// by `on_request_result`'s contract, at most one combined debug request
/// follows it.
pub proof fn lemma_step_sends_all(actions: Seq<Action>)
    ensures
        batch_after_enqueues(actions) =~= actions,
    decreases actions.len(),
{
    if actions.len() > 0 {
        lemma_step_sends_all(actions.drop_last());
    }
}

} // verus!
