//! Tests of the action batching service: one combined request per step
//! with every queued action in enqueue order, at most one debug request,
//! and the at-least-once behavior of a failed flush.

use sc2::action::{ActionService, FlushPhase};
use sc2::client::Request;
use sc2::data::{Action, DebugCommand};
use sc2::errors::Error;

fn act(ability: u32) -> Action {
    Action { ability, unit_tag: 100 + ability as u64, queued: false }
}

#[test]
fn step_sends_all_actions_in_enqueue_order() {
    let mut service = ActionService::new();
    service.send_action(act(1));
    service.send_action(act(2));
    service.send_action(act(3));
    service.send_debug(DebugCommand::KillUnit { tag: 7 });
    service.send_debug(DebugCommand::EndGame { victory: true });

    // Exactly one combined action request with all three, in order.
    let req = service.step().unwrap();
    match req {
        Request::Action(v) => assert_eq!(v, vec![act(1), act(2), act(3)]),
        other => panic!("expected a combined action request, got {:?}", other),
    }
    // Its success clears the action batch and yields at most one combined
    // debug request.
    let next = service.on_request_result(Ok(())).unwrap();
    match next {
        Some(Request::Debug(v)) => assert_eq!(
            v,
            vec![DebugCommand::KillUnit { tag: 7 }, DebugCommand::EndGame { victory: true }]
        ),
        other => panic!("expected the combined debug request, got {:?}", other),
    }
    assert!(service.action_batch.is_empty());
    // The debug success completes the step.
    let done = service.on_request_result(Ok(())).unwrap();
    assert!(done.is_none());
    assert!(service.debug_batch.is_empty());
    assert_eq!(service.phase, FlushPhase::Idle);
}

#[test]
fn empty_step_still_sends_both_combined_requests() {
    let mut service = ActionService::new();
    let req = service.step().unwrap();
    assert!(matches!(req, Request::Action(v) if v.is_empty()));
    let next = service.on_request_result(Ok(())).unwrap();
    assert!(matches!(next, Some(Request::Debug(v)) if v.is_empty()));
    assert!(service.on_request_result(Ok(())).unwrap().is_none());
}

#[test]
fn failed_flush_keeps_the_batch_for_redelivery() {
    let mut service = ActionService::new();
    service.send_action(act(9));
    let _ = service.step().unwrap();
    // The connection reports a failure: the error propagates to the
    // stepper and the batch is not cleared.
    let err = service.on_request_result(Err(Error::ConnectFailed)).unwrap_err();
    assert_eq!(err, Error::ConnectFailed);
    assert_eq!(service.action_batch, vec![act(9)]);
    assert_eq!(service.phase, FlushPhase::Idle);
    // A re-step redelivers the same action: at least once, never exactly
    // once.
    let req = service.step().unwrap();
    assert!(matches!(req, Request::Action(v) if v == vec![act(9)]));
}

#[test]
fn step_during_flush_is_refused() {
    let mut service = ActionService::new();
    let _ = service.step().unwrap();
    assert_eq!(service.step().unwrap_err(), Error::UnexpectedMessage);
}

#[test]
fn enqueue_acks_mean_queued_not_sent() {
    let mut service = ActionService::new();
    service.send_action(act(4));
    // Queued durably, nothing sent yet.
    assert_eq!(service.action_batch, vec![act(4)]);
    assert_eq!(service.phase, FlushPhase::Idle);
}
