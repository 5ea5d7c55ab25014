//! Tests of the connection state machine: kind inference, the transactor
//! checks, the FIFO pairing of responses, the retry budget, and the
//! timeout/response race.

use sc2::client::{
    ClientLobe, ClientMessageKind, ClientRequest, ClientResponse, Connect, Open, Request, Response,
    ResponseContent, Transactor, WireMessage, NUM_RETRIES,
};
use sc2::errors::Error;
use sc2::messages::{Message, Role};
use sc2::substrate::{Constraint, Effect, Handle, Outgoing, Protocol, Soma};

fn open_soma(me: usize, provider: usize, client: usize) -> Soma {
    Soma {
        id: Some(Handle::new(me)),
        input_constraints: vec![
            Constraint::RequireOne(Role::InstanceProvider),
            Constraint::RequireOne(Role::Client),
        ],
        output_constraints: vec![],
        inputs: vec![
            (Role::InstanceProvider, Handle::new(provider)),
            (Role::Client, Handle::new(client)),
        ],
        outputs: vec![],
    }
}

fn binary(content: ResponseContent) -> WireMessage {
    WireMessage::Binary(Response { content, errors: vec![] })
}

#[test]
fn request_kind_is_inferred_from_the_populated_field() {
    let req = ClientRequest::new(7, Request::Ping);
    assert_eq!(req.kind, ClientMessageKind::Ping);
    assert_eq!(req.timeout, 5);
    let req = ClientRequest::with_timeout(8, Request::Empty, 11);
    assert_eq!(req.kind, ClientMessageKind::Unknown);
    assert_eq!(req.timeout, 11);
    let req = ClientRequest::new(9, Request::Action(vec![]));
    assert_eq!(req.kind, ClientMessageKind::Action);
}

#[test]
fn transactor_checks_source_id_kind_and_game_errors() {
    let soma = Soma {
        id: Some(Handle::new(0)),
        input_constraints: vec![],
        output_constraints: vec![Constraint::RequireOne(Role::Client)],
        inputs: vec![],
        outputs: vec![(Role::Client, Handle::new(3))],
    };
    let (tx, out) = Transactor::send(&soma, ClientRequest::new(41, Request::Ping)).unwrap();
    assert_eq!(out.dest, Handle::new(3));
    assert!(matches!(out.msg, Message::ClientRequest(_)));
    assert_eq!(tx.client, Handle::new(3));

    let good = ClientResponse::new(41, Response { content: ResponseContent::Ping, errors: vec![] });
    let wrong_source = Transactor { ..tx };
    let err = wrong_source.expect(Handle::new(9), good).unwrap_err();
    assert_eq!(err, Error::UnexpectedSource);

    let (tx, _) = Transactor::send(&soma, ClientRequest::new(41, Request::Ping)).unwrap();
    let wrong_id = ClientResponse::new(40, Response { content: ResponseContent::Ping, errors: vec![] });
    assert_eq!(tx.expect(Handle::new(3), wrong_id).unwrap_err(), Error::TransactionIdMismatch);

    let (tx, _) = Transactor::send(&soma, ClientRequest::new(41, Request::Ping)).unwrap();
    let wrong_kind =
        ClientResponse::new(41, Response { content: ResponseContent::Step, errors: vec![] });
    assert_eq!(
        tx.expect(Handle::new(3), wrong_kind).unwrap_err(),
        Error::TransactionKindMismatch {
            expected: ClientMessageKind::Ping,
            found: ClientMessageKind::Step,
        }
    );

    let (tx, _) = Transactor::send(&soma, ClientRequest::new(41, Request::Ping)).unwrap();
    let with_errors = ClientResponse::new(
        41,
        Response { content: ResponseContent::Ping, errors: vec!["unit not found".to_string()] },
    );
    match tx.expect(Handle::new(3), with_errors).unwrap_err() {
        Error::GameErrors(v) => assert_eq!(v, vec!["unit not found".to_string()]),
        other => panic!("expected GameErrors, got {:?}", other),
    }

    let (tx, _) = Transactor::send(&soma, ClientRequest::new(41, Request::Ping)).unwrap();
    let ok = ClientResponse::new(41, Response { content: ResponseContent::Ping, errors: vec![] });
    let back = tx.expect(Handle::new(3), ok).unwrap();
    assert_eq!(back.transaction, 41);
}

#[test]
fn fifo_pairing_matches_responses_in_send_order() {
    let me = Handle::new(5);
    let client = Handle::new(2);
    let mut state = Open { soma: open_soma(5, 1, 2), transactions: vec![] };

    for (tid, req) in [(10u64, Request::GameInfo), (11, Request::Observation), (12, Request::Step(1))] {
        let step = state
            .update(Protocol::Message(client, Message::ClientRequest(ClientRequest::new(tid, req))))
            .unwrap();
        state = match step.actor {
            ClientLobe::Open(o) => o,
            other => panic!("expected Open, got {:?}", other),
        };
        assert!(matches!(step.effects[0], Effect::SendFrame(_)));
        assert!(matches!(step.effects[1], Effect::StartTimer(t, 5) if t == tid));
    }
    assert_eq!(
        state.transactions,
        vec![
            (10, ClientMessageKind::GameInfo),
            (11, ClientMessageKind::Observation),
            (12, ClientMessageKind::Step),
        ]
    );

    // Responses arrive strictly in send order and pair positionally.
    for (tid, content) in [
        (10u64, ResponseContent::GameInfo),
        (11, ResponseContent::Observation),
        (12, ResponseContent::Step),
    ] {
        let step = state
            .update(Protocol::Message(me, Message::ClientReceive(binary(content))))
            .unwrap();
        match &step.outbox[..] {
            [Outgoing { dest, msg: Message::ClientResponse(rsp) }] => {
                assert_eq!(*dest, client);
                assert_eq!(rsp.transaction, tid);
            },
            other => panic!("expected one response, got {:?}", other),
        }
        state = match step.actor {
            ClientLobe::Open(o) => o,
            other => panic!("expected Open, got {:?}", other),
        };
    }
    assert!(state.transactions.is_empty());
}

#[test]
fn kind_mismatch_on_pairing_is_a_protocol_error() {
    let me = Handle::new(5);
    let client = Handle::new(2);
    let state = Open {
        soma: open_soma(5, 1, 2),
        transactions: vec![(10, ClientMessageKind::GameInfo)],
    };
    let err = state
        .update(Protocol::Message(me, Message::ClientReceive(binary(ResponseContent::Step))))
        .unwrap_err();
    assert_eq!(
        err,
        Error::TransactionKindMismatch {
            expected: ClientMessageKind::GameInfo,
            found: ClientMessageKind::Step,
        }
    );

    let state = Open { soma: open_soma(5, 1, 2), transactions: vec![] };
    let err = state
        .update(Protocol::Message(me, Message::ClientReceive(binary(ResponseContent::Step))))
        .unwrap_err();
    assert_eq!(err, Error::NoPendingTransaction);

    let state = Open { soma: open_soma(5, 1, 2), transactions: vec![] };
    let err = state
        .update(Protocol::Message(me, Message::ClientReceive(WireMessage::Other)))
        .unwrap_err();
    assert_eq!(err, Error::NonBinaryMessage);
}

#[test]
fn retry_budget_allows_ten_attempts_and_no_eleventh() {
    let me = Handle::new(4);
    let soma = open_soma(4, 1, 2);
    let mut state = Connect { soma, retries: NUM_RETRIES };
    let url = "ws://127.0.0.1:5000/sc2api".to_string();
    for k in 0..NUM_RETRIES {
        let step = state
            .update(Protocol::Message(me, Message::ClientAttemptConnect(url.clone())))
            .unwrap();
        assert_eq!(step.effects.len(), 1, "attempt {} must issue one connect", k + 1);
        assert!(matches!(&step.effects[0], Effect::Connect { delay: 5, .. }));
        state = match step.actor {
            ClientLobe::Connect(c) => c,
            other => panic!("expected Connect, got {:?}", other),
        };
        assert_eq!(state.retries, NUM_RETRIES - k - 1);
    }
    // The retry budget is exhausted: the next attempt is fatal and issues
    // no further connect.
    let err = state
        .update(Protocol::Message(me, Message::ClientAttemptConnect(url)))
        .unwrap_err();
    assert_eq!(err, Error::ConnectFailed);
}

#[test]
fn response_before_timeout_wins_the_race() {
    let me = Handle::new(5);
    let client = Handle::new(2);
    let state = Open {
        soma: open_soma(5, 1, 2),
        transactions: vec![(21, ClientMessageKind::Ping), (22, ClientMessageKind::Step)],
    };
    // The response for transaction 21 arrives first and resolves it.
    let step = state
        .update(Protocol::Message(me, Message::ClientReceive(binary(ResponseContent::Ping))))
        .unwrap();
    assert!(matches!(
        &step.outbox[..],
        [Outgoing { msg: Message::ClientResponse(rsp), .. }] if rsp.transaction == 21
    ));
    assert!(matches!(&step.effects[..], [Effect::CancelTimer(21)]));
    let state = match step.actor {
        ClientLobe::Open(o) => o,
        other => panic!("expected Open, got {:?}", other),
    };
    // The late timeout for 21 is a no-op: no timeout ever reaches the
    // client peer for a resolved transaction.
    let step = state.update(Protocol::Message(me, Message::ClientTimeout(21))).unwrap();
    assert!(step.outbox.is_empty());
    let state = match step.actor {
        ClientLobe::Open(o) => o,
        other => panic!("expected Open, got {:?}", other),
    };
    assert_eq!(state.transactions, vec![(22, ClientMessageKind::Step)]);
    let _ = client;
}

#[test]
fn timeout_before_response_makes_the_response_a_head_mismatch() {
    let me = Handle::new(5);
    let client = Handle::new(2);
    let state = Open {
        soma: open_soma(5, 1, 2),
        transactions: vec![(21, ClientMessageKind::Ping), (22, ClientMessageKind::Step)],
    };
    // The timeout for 21 fires first: it leaves the queue and the client
    // peer hears exactly the timeout.
    let step = state.update(Protocol::Message(me, Message::ClientTimeout(21))).unwrap();
    match &step.outbox[..] {
        [Outgoing { dest, msg: Message::ClientTimeout(21) }] => assert_eq!(*dest, client),
        other => panic!("expected one timeout notice, got {:?}", other),
    }
    let state = match step.actor {
        ClientLobe::Open(o) => o,
        other => panic!("expected Open, got {:?}", other),
    };
    assert_eq!(state.transactions, vec![(22, ClientMessageKind::Step)]);
    // The late response for 21 now pairs with the new head, transaction
    // 22, whose kind differs: a protocol error.
    let err = state
        .update(Protocol::Message(me, Message::ClientReceive(binary(ResponseContent::Ping))))
        .unwrap_err();
    assert_eq!(
        err,
        Error::TransactionKindMismatch {
            expected: ClientMessageKind::Step,
            found: ClientMessageKind::Ping,
        }
    );
}

#[test]
fn duplicate_transaction_ids_are_refused() {
    let client = Handle::new(2);
    let state = Open {
        soma: open_soma(5, 1, 2),
        transactions: vec![(10, ClientMessageKind::Ping)],
    };
    let err = state
        .update(Protocol::Message(
            client,
            Message::ClientRequest(ClientRequest::new(10, Request::Ping)),
        ))
        .unwrap_err();
    assert_eq!(err, Error::DuplicateTransaction);
}

#[test]
fn client_lifecycle_reaches_open_and_rearms_on_close() {
    let provider = Handle::new(1);
    let client = Handle::new(2);
    let me = Handle::new(5);
    let lobe = ClientLobe::new().unwrap();
    let step = |l: ClientLobe, ev| -> sc2::substrate::Step<ClientLobe> { l.step_event(ev).unwrap() };

    let s = step(lobe, Protocol::Init(me));
    let s = step(s.actor, Protocol::AddInput(provider, Role::InstanceProvider));
    let s = step(s.actor, Protocol::AddInput(client, Role::Client));
    let s = step(s.actor, Protocol::Start);
    assert!(matches!(s.actor, ClientLobe::AwaitInstance(_)));

    let url = "ws://127.0.0.1:5000/sc2api".to_string();
    let s = step(s.actor, Protocol::Message(provider, Message::ProvideInstance(1, url.clone())));
    assert!(matches!(s.actor, ClientLobe::Connect(_)));
    // The first attempt is a self-addressed message.
    assert!(matches!(
        &s.outbox[..],
        [Outgoing { dest, msg: Message::ClientAttemptConnect(_) }] if *dest == me
    ));
    let s = step(s.actor, Protocol::Message(me, Message::ClientAttemptConnect(url)));
    assert!(matches!(&s.effects[..], [Effect::Connect { delay: 5, .. }]));
    let s = step(s.actor, Protocol::Message(me, Message::ClientConnected));
    assert!(matches!(s.actor, ClientLobe::Open(_)));
    assert!(matches!(
        &s.outbox[..],
        [Outgoing { dest, msg: Message::Ready }] if *dest == client
    ));
    // A transport closure re-arms the machine and notifies the client.
    let s = step(s.actor, Protocol::Message(me, Message::ClientClosed));
    assert!(matches!(s.actor, ClientLobe::AwaitInstance(_)));
    assert!(matches!(
        &s.outbox[..],
        [Outgoing { dest, msg: Message::ClientClosed }] if *dest == client
    ));
}

#[test]
fn disconnect_closes_the_transport() {
    let client = Handle::new(2);
    let state = Open { soma: open_soma(5, 1, 2), transactions: vec![] };
    let s = state.update(Protocol::Message(client, Message::ClientDisconnect)).unwrap();
    assert!(matches!(s.actor, ClientLobe::Disconnect(_)));
    assert!(matches!(&s.effects[..], [Effect::CloseTransport]));
}

#[test]
fn transport_events_before_init_are_refused() {
    let state = Open {
        soma: Soma {
            id: None,
            input_constraints: vec![],
            output_constraints: vec![],
            inputs: vec![],
            outputs: vec![],
        },
        transactions: vec![],
    };
    let err = state
        .update(Protocol::Message(Handle::new(0), Message::ClientReceive(WireMessage::Other)))
        .unwrap_err();
    assert_eq!(err, Error::NotInitialized);
}
