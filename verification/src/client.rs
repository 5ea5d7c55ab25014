//! The connection actor: one per game instance.
//!
//! It owns the transaction queue and the outbound sender, discovers its
//! instance endpoint, connects with a fixed retry budget, exchanges
//! request/response envelopes matched strictly in send order, and re-arms
//! itself after the transport closes. The actual socket work is performed
//! outside the library; this module takes the resulting events and decides.

use vstd::prelude::*;
use crate::data::{Action, DebugCommand, GamePorts, GameSettings, PlayerSetup};

verus! {

/// Identifier correlating one request with its response and its timeout.
pub type TransactionId = u64;

/// Delay, in time units, before each connect attempt.
pub const RETRY_DELAY: u32 = 5;

/// How many connect attempts are made before the connection actor gives up.
pub const NUM_RETRIES: u32 = 10;

/// Default timeout of a request, in time units.
pub const DEFAULT_TIMEOUT: u32 = 5;

/// The kind of a request or response envelope, inferred from which sub-field
/// of the one-of is populated.
#[derive(Debug, Copy, Clone, Eq, PartialEq, Structural)]
pub enum ClientMessageKind {
    Unknown,
    CreateGame,
    JoinGame,
    RestartGame,
    StartReplay,
    LeaveGame,
    QuickSave,
    QuickLoad,
    Quit,
    GameInfo,
    Observation,
    Action,
    Step,
    Data,
    Query,
    SaveReplay,
    ReplayInfo,
    AvailableMaps,
    SaveMap,
    Ping,
    Debug,
}

/// A request envelope: exactly one sub-field of the wire format's one-of is
/// populated, or none at all, in which case the kind is `Unknown`.
#[derive(Debug)]
pub enum Request {
    CreateGame(GameSettings, Vec<PlayerSetup>),
    JoinGame(PlayerSetup, Option<GamePorts>),
    RestartGame,
    StartReplay(String),
    LeaveGame,
    QuickSave,
    QuickLoad,
    Quit,
    GameInfo,
    Observation,
    Action(Vec<Action>),
    Step(u32),
    Data,
    Query,
    SaveReplay,
    ReplayInfo(String),
    AvailableMaps,
    SaveMap(String),
    Ping,
    Debug(Vec<DebugCommand>),
    /// An envelope with no populated sub-field.
    Empty,
}

/// Which sub-field of a request envelope is populated.
pub open spec fn request_kind(req: Request) -> ClientMessageKind {
    match req {
        Request::CreateGame(..) => ClientMessageKind::CreateGame,
        Request::JoinGame(..) => ClientMessageKind::JoinGame,
        Request::RestartGame => ClientMessageKind::RestartGame,
        Request::StartReplay(..) => ClientMessageKind::StartReplay,
        Request::LeaveGame => ClientMessageKind::LeaveGame,
        Request::QuickSave => ClientMessageKind::QuickSave,
        Request::QuickLoad => ClientMessageKind::QuickLoad,
        Request::Quit => ClientMessageKind::Quit,
        Request::GameInfo => ClientMessageKind::GameInfo,
        Request::Observation => ClientMessageKind::Observation,
        Request::Action(..) => ClientMessageKind::Action,
        Request::Step(..) => ClientMessageKind::Step,
        Request::Data => ClientMessageKind::Data,
        Request::Query => ClientMessageKind::Query,
        Request::SaveReplay => ClientMessageKind::SaveReplay,
        Request::ReplayInfo(..) => ClientMessageKind::ReplayInfo,
        Request::AvailableMaps => ClientMessageKind::AvailableMaps,
        Request::SaveMap(..) => ClientMessageKind::SaveMap,
        Request::Ping => ClientMessageKind::Ping,
        Request::Debug(..) => ClientMessageKind::Debug,
        Request::Empty => ClientMessageKind::Unknown,
    }
}

/// The populated sub-field of a response envelope.
#[derive(Debug, Copy, Clone, Eq, PartialEq, Structural)]
pub enum ResponseContent {
    CreateGame,
    JoinGame,
    RestartGame,
    StartReplay,
    LeaveGame,
    QuickSave,
    QuickLoad,
    Quit,
    GameInfo,
    Observation,
    Action,
    Step,
    Data,
    Query,
    SaveReplay,
    ReplayInfo,
    AvailableMaps,
    SaveMap,
    Ping,
    Debug,
    /// An envelope with no populated sub-field.
    Empty,
}

/// A response envelope: one populated sub-field and the instance's list of
/// application-level error strings.
#[derive(Debug)]
pub struct Response {
    /// Which sub-field is populated.
    pub content: ResponseContent,
    /// Application-level errors the instance reported.
    pub errors: Vec<String>,
}

/// Which sub-field of a response envelope is populated.
pub open spec fn response_kind(rsp: Response) -> ClientMessageKind {
    match rsp.content {
        ResponseContent::CreateGame => ClientMessageKind::CreateGame,
        ResponseContent::JoinGame => ClientMessageKind::JoinGame,
        ResponseContent::RestartGame => ClientMessageKind::RestartGame,
        ResponseContent::StartReplay => ClientMessageKind::StartReplay,
        ResponseContent::LeaveGame => ClientMessageKind::LeaveGame,
        ResponseContent::QuickSave => ClientMessageKind::QuickSave,
        ResponseContent::QuickLoad => ClientMessageKind::QuickLoad,
        ResponseContent::Quit => ClientMessageKind::Quit,
        ResponseContent::GameInfo => ClientMessageKind::GameInfo,
        ResponseContent::Observation => ClientMessageKind::Observation,
        ResponseContent::Action => ClientMessageKind::Action,
        ResponseContent::Step => ClientMessageKind::Step,
        ResponseContent::Data => ClientMessageKind::Data,
        ResponseContent::Query => ClientMessageKind::Query,
        ResponseContent::SaveReplay => ClientMessageKind::SaveReplay,
        ResponseContent::ReplayInfo => ClientMessageKind::ReplayInfo,
        ResponseContent::AvailableMaps => ClientMessageKind::AvailableMaps,
        ResponseContent::SaveMap => ClientMessageKind::SaveMap,
        ResponseContent::Ping => ClientMessageKind::Ping,
        ResponseContent::Debug => ClientMessageKind::Debug,
        ResponseContent::Empty => ClientMessageKind::Unknown,
    }
}

/// One frame of the transport, as handed to the connection actor.
#[derive(Debug)]
pub enum WireMessage {
    /// A binary frame, already decoded into a response envelope.
    Binary(Response),
    /// Any non-binary frame; always a protocol error while open.
    Other,
}

/// A request queued at the connection actor, with its correlation id, its
/// inferred kind and its timeout.
#[derive(Debug)]
pub struct ClientRequest {
    pub transaction: TransactionId,
    pub request: Request,
    pub timeout: u32,
    pub kind: ClientMessageKind,
}

impl ClientRequest {
    /// Wraps a request envelope with the default timeout.
    pub fn new(transaction: TransactionId, request: Request) -> (r: Self)
        ensures
            r.transaction == transaction,
            r.request == request,
            r.timeout == DEFAULT_TIMEOUT,
            r.kind == request_kind(request),
    {
        Self::with_timeout(transaction, request, DEFAULT_TIMEOUT)
    }

    /// Wraps a request envelope with the given timeout.
    pub fn with_timeout(transaction: TransactionId, request: Request, timeout: u32) -> (r: Self)
        ensures
            r.transaction == transaction,
            r.request == request,
            r.timeout == timeout,
            r.kind == request_kind(request),
    {
        let kind = Self::get_kind(&request);
        Self { transaction, request, timeout, kind }
    }

    /// Infers the kind of a request envelope from its populated sub-field.
    fn get_kind(req: &Request) -> (k: ClientMessageKind)
        ensures
            k == request_kind(*req),
    {
        match req {
            Request::CreateGame(..) => ClientMessageKind::CreateGame,
            Request::JoinGame(..) => ClientMessageKind::JoinGame,
            Request::RestartGame => ClientMessageKind::RestartGame,
            Request::StartReplay(..) => ClientMessageKind::StartReplay,
            Request::LeaveGame => ClientMessageKind::LeaveGame,
            Request::QuickSave => ClientMessageKind::QuickSave,
            Request::QuickLoad => ClientMessageKind::QuickLoad,
            Request::Quit => ClientMessageKind::Quit,
            Request::GameInfo => ClientMessageKind::GameInfo,
            Request::Observation => ClientMessageKind::Observation,
            Request::Action(..) => ClientMessageKind::Action,
            Request::Step(..) => ClientMessageKind::Step,
            Request::Data => ClientMessageKind::Data,
            Request::Query => ClientMessageKind::Query,
            Request::SaveReplay => ClientMessageKind::SaveReplay,
            Request::ReplayInfo(..) => ClientMessageKind::ReplayInfo,
            Request::AvailableMaps => ClientMessageKind::AvailableMaps,
            Request::SaveMap(..) => ClientMessageKind::SaveMap,
            Request::Ping => ClientMessageKind::Ping,
            Request::Debug(..) => ClientMessageKind::Debug,
            Request::Empty => ClientMessageKind::Unknown,
        }
    }
}

/// A response forwarded to the client peer, with the id of the transaction
/// it resolved and its inferred kind.
#[derive(Debug)]
pub struct ClientResponse {
    pub transaction: TransactionId,
    pub response: Response,
    pub kind: ClientMessageKind,
}

impl ClientResponse {
    /// Pairs a response envelope with the transaction it resolves.
    pub fn new(transaction: TransactionId, response: Response) -> (r: Self)
        ensures
            r.transaction == transaction,
            r.response == response,
            r.kind == response_kind(response),
    {
        let kind = Self::get_kind(&response);
        Self { transaction, response, kind }
    }

    /// Infers the kind of a response envelope from its populated sub-field.
    fn get_kind(rsp: &Response) -> (k: ClientMessageKind)
        ensures
            k == response_kind(*rsp),
    {
        match rsp.content {
            ResponseContent::CreateGame => ClientMessageKind::CreateGame,
            ResponseContent::JoinGame => ClientMessageKind::JoinGame,
            ResponseContent::RestartGame => ClientMessageKind::RestartGame,
            ResponseContent::StartReplay => ClientMessageKind::StartReplay,
            ResponseContent::LeaveGame => ClientMessageKind::LeaveGame,
            ResponseContent::QuickSave => ClientMessageKind::QuickSave,
            ResponseContent::QuickLoad => ClientMessageKind::QuickLoad,
            ResponseContent::Quit => ClientMessageKind::Quit,
            ResponseContent::GameInfo => ClientMessageKind::GameInfo,
            ResponseContent::Observation => ClientMessageKind::Observation,
            ResponseContent::Action => ClientMessageKind::Action,
            ResponseContent::Step => ClientMessageKind::Step,
            ResponseContent::Data => ClientMessageKind::Data,
            ResponseContent::Query => ClientMessageKind::Query,
            ResponseContent::SaveReplay => ClientMessageKind::SaveReplay,
            ResponseContent::ReplayInfo => ClientMessageKind::ReplayInfo,
            ResponseContent::AvailableMaps => ClientMessageKind::AvailableMaps,
            ResponseContent::SaveMap => ClientMessageKind::SaveMap,
            ResponseContent::Ping => ClientMessageKind::Ping,
            ResponseContent::Debug => ClientMessageKind::Debug,
            ResponseContent::Empty => ClientMessageKind::Unknown,
        }
    }
}

} // verus!

use crate::errors::Error;
use crate::messages::{Message, Role};
use crate::substrate::{
    role_targets, soma_step, Actor, Constraint, Effect, Handle, Outgoing, Protocol, Soma, Step,
};

verus! {

/// A single outstanding request: the caller's receipt for the response or
/// the timeout that will resolve it. Consumed exactly once.
#[derive(Debug)]
pub struct Transactor {
    /// The connection actor the request went to.
    pub client: Handle,
    /// Correlation id of the request.
    pub transaction: TransactionId,
    /// Kind of the request.
    pub kind: ClientMessageKind,
}

impl Transactor {
    /// Hands a request to the connection actor wired as this soma's Client
    /// output, and keeps what is needed to check the response.
    pub fn send(soma: &Soma, req: ClientRequest) -> (r: Result<(Transactor, Outgoing), Error>)
        ensures
            ({
                let cl = role_targets(soma.outputs@, Role::Client);
                if cl.len() == 1 {
                    r matches Ok(p) && p.0.client == cl[0] && p.0.transaction == req.transaction
                        && p.0.kind == req.kind && p.1 == (Outgoing {
                        dest: cl[0],
                        msg: Message::ClientRequest(req),
                    })
                } else {
                    r == Err::<(Transactor, Outgoing), Error>(
                        Error::MissingPeer { role: Role::Client },
                    )
                }
            }),
    {
        let transaction = req.transaction;
        let kind = req.kind;
        let client = match soma.req_output(Role::Client) {
            Ok(h) => h,
            Err(e) => {
                return Err(e);
            },
        };
        Ok(
            (
                Transactor { client, transaction, kind },
                Outgoing { dest: client, msg: Message::ClientRequest(req) },
            ),
        )
    }

    /// Checks a response against this receipt: it must come from the right
    /// peer, carry the right transaction id and kind, and report no
    /// application-level errors.
    pub fn expect(self, src: Handle, rsp: ClientResponse) -> (r: Result<ClientResponse, Error>)
        ensures
            if src != self.client {
                r == Err::<ClientResponse, Error>(Error::UnexpectedSource)
            } else if rsp.transaction != self.transaction {
                r == Err::<ClientResponse, Error>(Error::TransactionIdMismatch)
            } else if rsp.kind != self.kind {
                r == Err::<ClientResponse, Error>(
                    Error::TransactionKindMismatch { expected: self.kind, found: rsp.kind },
                )
            } else if rsp.response.errors@.len() != 0 {
                r matches Err(e) && e matches Error::GameErrors(v) && v@ == rsp.response.errors@
            } else {
                r matches Ok(out) && out == rsp
            },
    {
        if src != self.client {
            return Err(Error::UnexpectedSource);
        }
        if rsp.transaction != self.transaction {
            return Err(Error::TransactionIdMismatch);
        }
        if rsp.kind != self.kind {
            return Err(Error::TransactionKindMismatch { expected: self.kind, found: rsp.kind });
        }
        let ClientResponse { transaction, response, kind } = rsp;
        if response.errors.len() != 0 {
            return Err(Error::GameErrors(response.errors));
        }
        Ok(ClientResponse { transaction, response, kind })
    }
}

/// Whether some pending transaction carries the id.
pub open spec fn queue_has(q: Seq<(TransactionId, ClientMessageKind)>, tid: TransactionId) -> bool {
    exists|i: int| 0 <= i < q.len() && q[i].0 == tid
}

/// Index of the oldest pending transaction with the id, or -1 if none.
pub open spec fn first_index_of(
    q: Seq<(TransactionId, ClientMessageKind)>,
    tid: TransactionId,
) -> int
    decreases q.len(),
{
    if q.len() == 0 {
        -1
    } else if q[0].0 == tid {
        0
    } else {
        let rest = first_index_of(q.drop_first(), tid);
        if rest < 0 {
            -1
        } else {
            rest + 1
        }
    }
}

/// What receiving a response of the given kind does to the transaction
/// queue: the oldest pending transaction is popped and paired with the
/// response positionally; an empty queue or a kind mismatch is a fatal
/// protocol error.
pub open spec fn recv_outcome(q: Seq<(TransactionId, ClientMessageKind)>, rk: ClientMessageKind)
    -> Result<((TransactionId, ClientMessageKind), Seq<(TransactionId, ClientMessageKind)>), Error>
{
    if q.len() == 0 {
        Err(Error::NoPendingTransaction)
    } else if q[0].1 != rk {
        Err(Error::TransactionKindMismatch { expected: q[0].1, found: rk })
    } else {
        Ok((q[0], q.drop_first()))
    }
}

/// What a timeout for the id does to the transaction queue: the oldest
/// transaction with the id leaves and the client peer is notified; if the
/// transaction was already resolved, nothing happens.
pub open spec fn timeout_outcome(q: Seq<(TransactionId, ClientMessageKind)>, tid: TransactionId)
    -> (Seq<(TransactionId, ClientMessageKind)>, bool)
{
    let i = first_index_of(q, tid);
    if i >= 0 {
        (q.remove(i), true)
    } else {
        (q, false)
    }
}

proof fn lemma_first_index_found(
    q: Seq<(TransactionId, ClientMessageKind)>,
    tid: TransactionId,
    i: int,
)
    requires
        0 <= i < q.len(),
        q[i].0 == tid,
        forall|j: int| 0 <= j < i ==> q[j].0 != tid,
    ensures
        first_index_of(q, tid) == i,
    decreases i,
{
    if i > 0 {
        assert(q.drop_first()[i - 1].0 == tid);
        assert forall|j: int| 0 <= j < i - 1 implies q.drop_first()[j].0 != tid by {
            assert(q.drop_first()[j] == q[j + 1]);
        }
        lemma_first_index_found(q.drop_first(), tid, i - 1);
    }
}

/// Finds the oldest pending transaction with the id.
fn find_transaction(q: &Vec<(TransactionId, ClientMessageKind)>, tid: TransactionId) -> (r: Option<
    usize,
>)
    ensures
        match r {
            Some(i) => i == first_index_of(q@, tid) && i < q@.len() && q@[i as int].0 == tid
                && queue_has(q@, tid),
            None => !queue_has(q@, tid),
        },
{
    let mut i: usize = 0;
    while i < q.len()
        invariant
            i <= q.len(),
            forall|j: int| 0 <= j < i ==> q@[j].0 != tid,
        decreases q.len() - i,
    {
        if q[i].0 == tid {
            proof {
                lemma_first_index_found(q@, tid, i as int);
            }
            return Some(i);
        }
        i = i + 1;
    }
    None
}

/// Whether a step holds the given next value and sends nothing.
pub open spec fn quiet_step(r: Result<Step<ClientLobe>, Error>, next: ClientLobe) -> bool {
    r matches Ok(s) && s.actor == next && s.outbox@ =~= Seq::<Outgoing>::empty() && s.effects@
        =~= Seq::<Effect>::empty() && !s.stop
}

/// What one lifecycle event does while the connection actor waits for `Start`.
pub open spec fn init_update_spec(pre: Init, event: Protocol, r: Result<Step<ClientLobe>, Error>) -> bool {
            match event {
                Protocol::Init(_) | Protocol::AddInput(..) | Protocol::AddOutput(..) => (r matches
                    Ok(s) && s.actor matches ClientLobe::Init(st) && soma_step(
                    pre.soma,
                    st.soma,
                    event,
                ) && s.outbox@ =~= Seq::<Outgoing>::empty() && s.effects@ =~= Seq::<
                    Effect,
                >::empty() && !s.stop),
                Protocol::Start => if pre.soma.wired() {
                    r matches Ok(s) && s.actor == ClientLobe::AwaitInstance(
                        AwaitInstance { soma: pre.soma },
                    ) && s.outbox@ =~= Seq::<Outgoing>::empty() && s.effects@ =~= Seq::<
                        Effect,
                    >::empty() && !s.stop
                } else {
                    r matches Err(e) && e matches Error::ArityViolation { .. }
                },
                Protocol::Stop => quiet_step(r, ClientLobe::Init(pre)),
                Protocol::Message(..) => r == Err::<Step<ClientLobe>, Error>(
                    Error::UnexpectedMessage,
                ),
            }
}

/// What one lifecycle event does while an instance is awaited.
pub open spec fn await_update_spec(pre: AwaitInstance, event: Protocol, r: Result<Step<ClientLobe>, Error>) -> bool {
            match event {
                Protocol::Init(_) | Protocol::AddInput(..) | Protocol::AddOutput(..) => (r matches
                    Ok(s) && s.actor matches ClientLobe::AwaitInstance(st) && soma_step(
                    pre.soma,
                    st.soma,
                    event,
                ) && s.outbox@ =~= Seq::<Outgoing>::empty() && s.effects@ =~= Seq::<
                    Effect,
                >::empty() && !s.stop),
                Protocol::Start => if pre.soma.wired() {
                    r == Err::<Step<ClientLobe>, Error>(Error::UnexpectedMessage)
                } else {
                    r matches Err(e) && e matches Error::ArityViolation { .. }
                },
                Protocol::Stop => quiet_step(r, ClientLobe::AwaitInstance(pre)),
                Protocol::Message(src, msg) => match msg {
                    Message::ProvideInstance(_, url) => assign_instance_spec(
                        pre.soma,
                        src,
                        url,
                        r,
                    ),
                    _ => r == Err::<Step<ClientLobe>, Error>(Error::UnexpectedMessage),
                },
            }
}

/// What one lifecycle event does while connecting.
pub open spec fn connect_update_spec(pre: Connect, event: Protocol, r: Result<Step<ClientLobe>, Error>) -> bool {
            match event {
                Protocol::Init(_) | Protocol::AddInput(..) | Protocol::AddOutput(..) => (r matches
                    Ok(s) && s.actor matches ClientLobe::Connect(st) && soma_step(
                    pre.soma,
                    st.soma,
                    event,
                ) && st.retries == pre.retries && s.outbox@ =~= Seq::<Outgoing>::empty()
                    && s.effects@ =~= Seq::<Effect>::empty() && !s.stop),
                Protocol::Start => if pre.soma.wired() {
                    r == Err::<Step<ClientLobe>, Error>(Error::UnexpectedMessage)
                } else {
                    r matches Err(e) && e matches Error::ArityViolation { .. }
                },
                Protocol::Stop => quiet_step(r, ClientLobe::Connect(pre)),
                Protocol::Message(src, msg) => match msg {
                    Message::ClientAttemptConnect(url) => attempt_connect_spec(
                        pre,
                        src,
                        url,
                        r,
                    ),
                    Message::ClientConnected => on_connected_spec(pre, src, r),
                    _ => r == Err::<Step<ClientLobe>, Error>(Error::UnexpectedMessage),
                },
            }
}

/// What one lifecycle event does while the connection is open.
pub open spec fn open_update_spec(pre: Open, event: Protocol, r: Result<Step<ClientLobe>, Error>) -> bool {
            match event {
                Protocol::Init(_) | Protocol::AddInput(..) | Protocol::AddOutput(..) => (r matches
                    Ok(s) && s.actor matches ClientLobe::Open(st) && soma_step(
                    pre.soma,
                    st.soma,
                    event,
                ) && st.transactions@ == pre.transactions@ && s.outbox@ =~= Seq::<
                    Outgoing,
                >::empty() && s.effects@ =~= Seq::<Effect>::empty() && !s.stop),
                Protocol::Start => if pre.soma.wired() {
                    r == Err::<Step<ClientLobe>, Error>(Error::UnexpectedMessage)
                } else {
                    r matches Err(e) && e matches Error::ArityViolation { .. }
                },
                Protocol::Stop => quiet_step(r, ClientLobe::Open(pre)),
                Protocol::Message(src, msg) => match msg {
                    Message::ClientRequest(req) => send_spec(pre, src, req, r),
                    Message::ClientReceive(wire) => recv_frame_spec(pre, src, wire, r),
                    Message::ClientTimeout(tid) => timeout_spec(pre, src, tid, r),
                    Message::ClientDisconnect => disconnect_spec(pre.soma, r),
                    Message::ClientClosed => on_close_spec(pre, src, r),
                    Message::ClientError(e) => on_error_spec(pre, src, e, r),
                    _ => r == Err::<Step<ClientLobe>, Error>(Error::UnexpectedMessage),
                },
            }
}

/// What one lifecycle event does while the close is awaited.
pub open spec fn disconnect_update_spec(pre: Disconnect, event: Protocol, r: Result<Step<ClientLobe>, Error>) -> bool {
            match event {
                Protocol::Init(_) | Protocol::AddInput(..) | Protocol::AddOutput(..) => (r matches
                    Ok(s) && s.actor matches ClientLobe::Disconnect(st) && soma_step(
                    pre.soma,
                    st.soma,
                    event,
                ) && s.outbox@ =~= Seq::<Outgoing>::empty() && s.effects@ =~= Seq::<
                    Effect,
                >::empty() && !s.stop),
                Protocol::Start => if pre.soma.wired() {
                    r == Err::<Step<ClientLobe>, Error>(Error::UnexpectedMessage)
                } else {
                    r matches Err(e) && e matches Error::ArityViolation { .. }
                },
                Protocol::Stop => quiet_step(r, ClientLobe::Disconnect(pre)),
                Protocol::Message(_, msg) => match msg {
                    Message::ClientClosed => reset_spec(pre.soma, r),
                    Message::ClientError(e) => reset_error_spec(pre.soma, e, r),
                    _ => r == Err::<Step<ClientLobe>, Error>(Error::UnexpectedMessage),
                },
            }
}

/// The connection state machine of one game instance.
#[derive(Debug)]
pub enum ClientLobe {
    /// Waits for the network to assemble.
    Init(Init),
    /// Waits for an instance to be assigned.
    AwaitInstance(AwaitInstance),
    /// Attempts to connect, with a retry budget.
    Connect(Connect),
    /// Holds the open connection and its transaction queue.
    Open(Open),
    /// Waits for the transport to acknowledge the close.
    Disconnect(Disconnect),
}

impl ClientLobe {
    /// A fresh connection actor: it requires exactly one InstanceProvider
    /// peer and exactly one Client peer.
    pub fn new() -> (r: Result<ClientLobe, Error>)
        ensures
            r matches Ok(l) && l matches ClientLobe::Init(st) && st.soma.id is None
                && st.soma.inputs@ =~= Seq::<(Role, Handle)>::empty() && st.soma.outputs@
                =~= Seq::<(Role, Handle)>::empty() && st.soma.input_constraints@ =~= seq![
                Constraint::RequireOne(Role::InstanceProvider),
                Constraint::RequireOne(Role::Client),
            ] && st.soma.output_constraints@ =~= Seq::<Constraint>::empty(),
    {
        let mut input_constraints: Vec<Constraint> = Vec::new();
        input_constraints.push(Constraint::RequireOne(Role::InstanceProvider));
        input_constraints.push(Constraint::RequireOne(Role::Client));
        let output_constraints: Vec<Constraint> = Vec::new();
        Ok(ClientLobe::Init(Init { soma: Soma::new(input_constraints, output_constraints) }))
    }

    /// Dispatches one lifecycle event to the current phase.
    pub fn step_event(self, event: Protocol) -> (r: Result<Step<ClientLobe>, Error>)
        ensures
            match self {
                ClientLobe::Init(st) => init_update_spec(st, event, r),
                ClientLobe::AwaitInstance(st) => await_update_spec(st, event, r),
                ClientLobe::Connect(st) => connect_update_spec(st, event, r),
                ClientLobe::Open(st) => open_update_spec(st, event, r),
                ClientLobe::Disconnect(st) => disconnect_update_spec(st, event, r),
            },
    {
        match self {
            ClientLobe::Init(state) => state.update(event),
            ClientLobe::AwaitInstance(state) => state.update(event),
            ClientLobe::Connect(state) => state.update(event),
            ClientLobe::Open(state) => state.update(event),
            ClientLobe::Disconnect(state) => state.update(event),
        }
    }
}

impl Actor for ClientLobe {
    fn update(self, event: Protocol) -> Result<Step<ClientLobe>, Error> {
        self.step_event(event)
    }
}

/// Phase before the network starts.
#[derive(Debug)]
pub struct Init {
    /// The actor's mailbox helper.
    pub soma: Soma,
}

impl Init {
    /// Handles one lifecycle event while waiting for `Start`.
    pub fn update(self, event: Protocol) -> (r: Result<Step<ClientLobe>, Error>)
        ensures
            init_update_spec(self, event, r),
    {
        let mut this = self;
        let passed = match this.soma.update(event) {
            Ok(p) => p,
            Err(e) => {
                return Err(e);
            },
        };
        match passed {
            None => Ok(Step::advance(ClientLobe::Init(this))),
            Some(Protocol::Start) => Ok(
                Step::advance(ClientLobe::AwaitInstance(AwaitInstance { soma: this.soma })),
            ),
            Some(Protocol::Stop) => Ok(Step::advance(ClientLobe::Init(this))),
            Some(_) => Err(Error::UnexpectedMessage),
        }
    }
}

/// What assigning an instance does: the soma's unique InstanceProvider
/// peer hands over an endpoint, and a self-addressed connect attempt is
/// posted.
pub open spec fn assign_instance_spec(
    soma: Soma,
    src: Handle,
    url: String,
    r: Result<Step<ClientLobe>, Error>,
) -> bool {
    let ip = role_targets(soma.inputs@, Role::InstanceProvider);
    if ip.len() != 1 {
        r == Err::<Step<ClientLobe>, Error>(Error::MissingPeer { role: Role::InstanceProvider })
    } else if src != ip[0] {
        r == Err::<Step<ClientLobe>, Error>(Error::UnexpectedSource)
    } else {
        connect_spec(soma, url, r)
    }
}

/// What entering the connect phase does: a self-addressed attempt message
/// is posted and the retry budget is armed.
pub open spec fn connect_spec(soma: Soma, url: String, r: Result<Step<ClientLobe>, Error>) -> bool {
    match soma.id {
        None => r == Err::<Step<ClientLobe>, Error>(Error::NotInitialized),
        Some(me) => r matches Ok(s) && s.actor == ClientLobe::Connect(
            Connect { soma, retries: NUM_RETRIES },
        ) && s.outbox@ =~= seq![Outgoing { dest: me, msg: Message::ClientAttemptConnect(url) }]
            && s.effects@ =~= Seq::<Effect>::empty() && !s.stop,
    }
}

/// What resetting to the instance-await phase does: the client peer is
/// told that the connection closed.
pub open spec fn reset_spec(soma: Soma, r: Result<Step<ClientLobe>, Error>) -> bool {
    let cl = role_targets(soma.inputs@, Role::Client);
    if cl.len() != 1 {
        r == Err::<Step<ClientLobe>, Error>(Error::MissingPeer { role: Role::Client })
    } else {
        r matches Ok(s) && s.actor == ClientLobe::AwaitInstance(AwaitInstance { soma }) && s.outbox@
            =~= seq![Outgoing { dest: cl[0], msg: Message::ClientClosed }] && s.effects@ =~= Seq::<
            Effect,
        >::empty() && !s.stop
    }
}

/// What resetting after a transport error does: the client peer receives
/// the error, then the closed notice, in order.
pub open spec fn reset_error_spec(soma: Soma, e: Error, r: Result<Step<ClientLobe>, Error>) -> bool {
    let cl = role_targets(soma.inputs@, Role::Client);
    if cl.len() != 1 {
        r == Err::<Step<ClientLobe>, Error>(Error::MissingPeer { role: Role::Client })
    } else {
        r matches Ok(s) && s.actor == ClientLobe::AwaitInstance(AwaitInstance { soma }) && s.outbox@
            =~= seq![
            Outgoing { dest: cl[0], msg: Message::ClientError(e) },
            Outgoing { dest: cl[0], msg: Message::ClientClosed },
        ] && s.effects@ =~= Seq::<Effect>::empty() && !s.stop
    }
}

/// Phase that waits for an `ProvideInstance` message from the
/// InstanceProvider peer.
#[derive(Debug)]
pub struct AwaitInstance {
    /// The actor's mailbox helper.
    pub soma: Soma,
}

impl AwaitInstance {
    /// Enters this phase without notifying anyone.
    pub fn enter(soma: Soma) -> (r: ClientLobe)
        ensures
            r == ClientLobe::AwaitInstance(AwaitInstance { soma }),
    {
        ClientLobe::AwaitInstance(AwaitInstance { soma })
    }

    /// Re-enters this phase after a closed connection, notifying the
    /// client peer of the closure.
    pub fn reset(soma: Soma) -> (r: Result<Step<ClientLobe>, Error>)
        ensures
            reset_spec(soma, r),
    {
        let client = match soma.req_input(Role::Client) {
            Ok(h) => h,
            Err(e) => {
                return Err(e);
            },
        };
        let mut outbox: Vec<Outgoing> = Vec::new();
        outbox.push(Outgoing { dest: client, msg: Message::ClientClosed });
        Ok(
            Step {
                actor: ClientLobe::AwaitInstance(AwaitInstance { soma }),
                outbox,
                effects: Vec::new(),
                stop: false,
            },
        )
    }

    /// Re-enters this phase after a transport error, forwarding the error
    /// and then the closure to the client peer.
    pub fn reset_error(soma: Soma, e: Error) -> (r: Result<Step<ClientLobe>, Error>)
        ensures
            reset_error_spec(soma, e, r),
    {
        let client = match soma.req_input(Role::Client) {
            Ok(h) => h,
            Err(err) => {
                return Err(err);
            },
        };
        let mut outbox: Vec<Outgoing> = Vec::new();
        outbox.push(Outgoing { dest: client, msg: Message::ClientError(e) });
        outbox.push(Outgoing { dest: client, msg: Message::ClientClosed });
        Ok(
            Step {
                actor: ClientLobe::AwaitInstance(AwaitInstance { soma }),
                outbox,
                effects: Vec::new(),
                stop: false,
            },
        )
    }

    /// Handles one lifecycle event while waiting for an instance.
    pub fn update(self, event: Protocol) -> (r: Result<Step<ClientLobe>, Error>)
        ensures
            await_update_spec(self, event, r),
    {
        let mut this = self;
        let passed = match this.soma.update(event) {
            Ok(p) => p,
            Err(e) => {
                return Err(e);
            },
        };
        match passed {
            None => Ok(Step::advance(ClientLobe::AwaitInstance(this))),
            Some(Protocol::Stop) => Ok(Step::advance(ClientLobe::AwaitInstance(this))),
            Some(Protocol::Message(src, Message::ProvideInstance(instance, url))) => this
                .assign_instance(src, instance, url),
            Some(_) => Err(Error::UnexpectedMessage),
        }
    }

    /// Takes the endpoint the InstanceProvider peer assigned and moves on
    /// to connecting.
    pub fn assign_instance(self, src: Handle, _instance: u64, url: String) -> (r: Result<
        Step<ClientLobe>,
        Error,
    >)
        ensures
            assign_instance_spec(self.soma, src, url, r),
    {
        let provider = match self.soma.req_input(Role::InstanceProvider) {
            Ok(h) => h,
            Err(e) => {
                return Err(e);
            },
        };
        if src != provider {
            return Err(Error::UnexpectedSource);
        }
        Connect::connect(self.soma, url)
    }
}

/// What one connect attempt does: with budget left, one transport attempt
/// goes out and the budget shrinks by one; with the budget exhausted, the
/// attempt is a fatal connection error and no attempt goes out.
pub open spec fn attempt_step(budget: u32) -> Result<u32, Error> {
    if budget == 0 {
        Err(Error::ConnectFailed)
    } else {
        Ok((budget - 1) as u32)
    }
}

/// The retry budget left after `k` self-addressed connect attempts from a
/// fresh budget, or the fatal error that ended them.
pub open spec fn budget_after(k: nat) -> Result<u32, Error>
    decreases k,
{
    if k == 0 {
        Ok(NUM_RETRIES)
    } else {
        match budget_after((k - 1) as nat) {
            Ok(b) => attempt_step(b),
            Err(e) => Err(e),
        }
    }
}

/// Retry bound: a fresh connection attempts at most `NUM_RETRIES` connects.
/// Each of the first `NUM_RETRIES` attempt events finds budget left, so by
/// `attempt_connect`'s contract it emits exactly one transport attempt;
/// after them the budget is exactly zero, so the next attempt event is the
/// fatal `ConnectFailed` error and emits no further attempt.
pub proof fn lemma_retry_bound(k: nat)
    ensures
        k <= NUM_RETRIES ==> budget_after(k) == Ok::<u32, Error>((NUM_RETRIES - k) as u32),
        budget_after((NUM_RETRIES + 1) as nat) == Err::<u32, Error>(Error::ConnectFailed),
{
    lemma_budget_progress(k);
    lemma_budget_progress((NUM_RETRIES + 1) as nat);
}

proof fn lemma_budget_progress(k: nat)
    ensures
        k <= NUM_RETRIES ==> budget_after(k) == Ok::<u32, Error>((NUM_RETRIES - k) as u32),
        k == NUM_RETRIES + 1 ==> budget_after(k) == Err::<u32, Error>(Error::ConnectFailed),
    decreases k,
{
    if k > 0 {
        lemma_budget_progress((k - 1) as nat);
    }
}

/// Phase that attempts to connect to the assigned endpoint.
#[derive(Debug)]
pub struct Connect {
    /// The actor's mailbox helper.
    pub soma: Soma,
    /// How many attempts are left.
    pub retries: u32,
}

impl Connect {
    /// Enters the connect phase: arms the retry budget and posts the first
    /// self-addressed attempt message.
    pub fn connect(soma: Soma, url: String) -> (r: Result<Step<ClientLobe>, Error>)
        ensures
            connect_spec(soma, url, r),
    {
        let me = match soma.this_actor() {
            Ok(h) => h,
            Err(e) => {
                return Err(e);
            },
        };
        let mut outbox: Vec<Outgoing> = Vec::new();
        outbox.push(Outgoing { dest: me, msg: Message::ClientAttemptConnect(url) });
        Ok(
            Step {
                actor: ClientLobe::Connect(Connect { soma, retries: NUM_RETRIES }),
                outbox,
                effects: Vec::new(),
                stop: false,
            },
        )
    }

    /// Handles one lifecycle event while connecting.
    pub fn update(self, event: Protocol) -> (r: Result<Step<ClientLobe>, Error>)
        ensures
            connect_update_spec(self, event, r),
    {
        let mut this = self;
        let passed = match this.soma.update(event) {
            Ok(p) => p,
            Err(e) => {
                return Err(e);
            },
        };
        match passed {
            None => Ok(Step::advance(ClientLobe::Connect(this))),
            Some(Protocol::Stop) => Ok(Step::advance(ClientLobe::Connect(this))),
            Some(Protocol::Message(src, Message::ClientAttemptConnect(url))) => this
                .attempt_connect(src, url),
            Some(Protocol::Message(src, Message::ClientConnected)) => this.on_connected(src),
            Some(_) => Err(Error::UnexpectedMessage),
        }
    }

    /// Spends one attempt of the retry budget: asks the transport to
    /// connect after the fixed delay, or fails for good once the budget is
    /// exhausted. A failed transport attempt posts the attempt message
    /// again, which is what makes the budget tick down.
    pub fn attempt_connect(self, src: Handle, url: String) -> (r: Result<Step<ClientLobe>, Error>)
        ensures
            attempt_connect_spec(self, src, url, r),
    {
        let me = match self.soma.this_actor() {
            Ok(h) => h,
            Err(e) => {
                return Err(e);
            },
        };
        if src != me {
            return Err(Error::UnexpectedSource);
        }
        if self.retries == 0 {
            return Err(Error::ConnectFailed);
        }
        let mut effects: Vec<Effect> = Vec::new();
        effects.push(Effect::Connect { url, delay: RETRY_DELAY });
        Ok(
            Step {
                actor: ClientLobe::Connect(Connect { soma: self.soma, retries: self.retries - 1 }),
                outbox: Vec::new(),
                effects,
                stop: false,
            },
        )
    }

    /// Takes the transport's success notice and opens the connection.
    pub fn on_connected(self, src: Handle) -> (r: Result<Step<ClientLobe>, Error>)
        ensures
            on_connected_spec(self, src, r),
    {
        let me = match self.soma.this_actor() {
            Ok(h) => h,
            Err(e) => {
                return Err(e);
            },
        };
        if src != me {
            return Err(Error::UnexpectedSource);
        }
        Open::open(self.soma)
    }
}

/// What one self-addressed attempt message does to the connect phase,
/// following `attempt_step` on the retry budget.
pub open spec fn attempt_connect_spec(
    pre: Connect,
    src: Handle,
    url: String,
    r: Result<Step<ClientLobe>, Error>,
) -> bool {
    match pre.soma.id {
        None => r == Err::<Step<ClientLobe>, Error>(Error::NotInitialized),
        Some(me) => if src != me {
            r == Err::<Step<ClientLobe>, Error>(Error::UnexpectedSource)
        } else {
            match attempt_step(pre.retries) {
                Err(e) => r == Err::<Step<ClientLobe>, Error>(e),
                Ok(left) => r matches Ok(s) && s.actor == ClientLobe::Connect(
                    Connect { soma: pre.soma, retries: left },
                ) && s.outbox@ =~= Seq::<Outgoing>::empty() && s.effects@ =~= seq![
                    Effect::Connect { url, delay: RETRY_DELAY },
                ] && !s.stop
            }
        },
    }
}

/// What the transport's success notice does: the connection opens with an
/// empty transaction queue and the client peer hears `Ready`.
pub open spec fn on_connected_spec(
    pre: Connect,
    src: Handle,
    r: Result<Step<ClientLobe>, Error>,
) -> bool {
    match pre.soma.id {
        None => r == Err::<Step<ClientLobe>, Error>(Error::NotInitialized),
        Some(me) => if src != me {
            r == Err::<Step<ClientLobe>, Error>(Error::UnexpectedSource)
        } else {
            open_spec(pre.soma, r)
        },
    }
}

/// What opening the connection does: the client peer hears `Ready` and
/// the transaction queue starts empty.
pub open spec fn open_spec(soma: Soma, r: Result<Step<ClientLobe>, Error>) -> bool {
    let cl = role_targets(soma.inputs@, Role::Client);
    if cl.len() != 1 {
        r == Err::<Step<ClientLobe>, Error>(Error::MissingPeer { role: Role::Client })
    } else {
        r matches Ok(s) && s.actor matches ClientLobe::Open(o) && o.soma == soma && o.transactions@
            =~= Seq::<(TransactionId, ClientMessageKind)>::empty() && s.outbox@ =~= seq![
            Outgoing { dest: cl[0], msg: Message::Ready },
        ] && s.effects@ =~= Seq::<Effect>::empty() && !s.stop
    }
}

} // verus!

verus! {

/// What handing a request to the open connection does: the transaction
/// joins the back of the FIFO queue, the serialized frame goes out, and a
/// timer races the response.
pub open spec fn send_spec(
    pre: Open,
    src: Handle,
    req: ClientRequest,
    r: Result<Step<ClientLobe>, Error>,
) -> bool {
    let cl = role_targets(pre.soma.inputs@, Role::Client);
    if cl.len() != 1 {
        r == Err::<Step<ClientLobe>, Error>(Error::MissingPeer { role: Role::Client })
    } else if src != cl[0] {
        r == Err::<Step<ClientLobe>, Error>(Error::UnexpectedSource)
    } else if queue_has(pre.transactions@, req.transaction) {
        r == Err::<Step<ClientLobe>, Error>(Error::DuplicateTransaction)
    } else {
        r matches Ok(s) && s.actor matches ClientLobe::Open(o) && o.soma == pre.soma
            && o.transactions@ =~= pre.transactions@.push((req.transaction, req.kind)) && s.outbox@
            =~= Seq::<Outgoing>::empty() && s.effects@ =~= seq![
            Effect::SendFrame(req.request),
            Effect::StartTimer(req.transaction, req.timeout),
        ] && !s.stop
    }
}

/// What a transport frame does to the open connection: a non-binary frame
/// is a fatal protocol error; a binary frame resolves the oldest pending
/// transaction per `recv_outcome` and forwards the paired response to the
/// client peer, disarming the transaction's timer.
pub open spec fn recv_frame_spec(
    pre: Open,
    src: Handle,
    msg: WireMessage,
    r: Result<Step<ClientLobe>, Error>,
) -> bool {
    match pre.soma.id {
        None => r == Err::<Step<ClientLobe>, Error>(Error::NotInitialized),
        Some(me) => if src != me {
            r == Err::<Step<ClientLobe>, Error>(Error::UnexpectedSource)
        } else {
            match msg {
                WireMessage::Other => r == Err::<Step<ClientLobe>, Error>(
                    Error::NonBinaryMessage,
                ),
                WireMessage::Binary(rsp) => match recv_outcome(
                    pre.transactions@,
                    response_kind(rsp),
                ) {
                    Err(e) => r == Err::<Step<ClientLobe>, Error>(e),
                    Ok(resolved) => {
                        let cl = role_targets(pre.soma.inputs@, Role::Client);
                        if cl.len() != 1 {
                            r == Err::<Step<ClientLobe>, Error>(
                                Error::MissingPeer { role: Role::Client },
                            )
                        } else {
                            r matches Ok(s) && s.actor matches ClientLobe::Open(o) && o.soma
                                == pre.soma && o.transactions@ =~= resolved.1 && s.outbox@ =~= seq![
                                Outgoing {
                                    dest: cl[0],
                                    msg: Message::ClientResponse(
                                        ClientResponse {
                                            transaction: resolved.0.0,
                                            response: rsp,
                                            kind: resolved.0.1,
                                        },
                                    ),
                                },
                            ] && s.effects@ =~= seq![Effect::CancelTimer(resolved.0.0)] && !s.stop
                        }
                    },
                },
            }
        },
    }
}

/// What a timeout notice does to the open connection, per
/// `timeout_outcome`: a still-pending transaction leaves the queue and the
/// client peer is told; one already resolved makes the notice a no-op.
pub open spec fn timeout_spec(
    pre: Open,
    src: Handle,
    tid: TransactionId,
    r: Result<Step<ClientLobe>, Error>,
) -> bool {
    match pre.soma.id {
        None => r == Err::<Step<ClientLobe>, Error>(Error::NotInitialized),
        Some(me) => if src != me {
            r == Err::<Step<ClientLobe>, Error>(Error::UnexpectedSource)
        } else {
            let out = timeout_outcome(pre.transactions@, tid);
            if out.1 {
                let cl = role_targets(pre.soma.inputs@, Role::Client);
                if cl.len() != 1 {
                    r == Err::<Step<ClientLobe>, Error>(Error::MissingPeer { role: Role::Client })
                } else {
                    r matches Ok(s) && s.actor matches ClientLobe::Open(o) && o.soma == pre.soma
                        && o.transactions@ =~= out.0 && s.outbox@ =~= seq![
                        Outgoing { dest: cl[0], msg: Message::ClientTimeout(tid) },
                    ] && s.effects@ =~= Seq::<Effect>::empty() && !s.stop
                }
            } else {
                r matches Ok(s) && s.actor matches ClientLobe::Open(o) && o.soma == pre.soma
                    && o.transactions@ =~= pre.transactions@ && s.outbox@ =~= Seq::<
                    Outgoing,
                >::empty() && s.effects@ =~= Seq::<Effect>::empty() && !s.stop
            }
        },
    }
}

/// What a disconnect request does: the transport is asked to close and the
/// actor waits for the acknowledgment.
pub open spec fn disconnect_spec(soma: Soma, r: Result<Step<ClientLobe>, Error>) -> bool {
    r matches Ok(s) && s.actor == ClientLobe::Disconnect(Disconnect { soma }) && s.outbox@
        =~= Seq::<Outgoing>::empty() && s.effects@ =~= seq![Effect::CloseTransport] && !s.stop
}

/// What a transport closure does while open: pending transactions are
/// discarded and the actor re-arms, notifying the client peer.
pub open spec fn on_close_spec(pre: Open, src: Handle, r: Result<Step<ClientLobe>, Error>) -> bool {
    match pre.soma.id {
        None => r == Err::<Step<ClientLobe>, Error>(Error::NotInitialized),
        Some(me) => if src != me {
            r == Err::<Step<ClientLobe>, Error>(Error::UnexpectedSource)
        } else {
            reset_spec(pre.soma, r)
        },
    }
}

/// What a transport error does while open: like a closure, with the error
/// forwarded first.
pub open spec fn on_error_spec(
    pre: Open,
    src: Handle,
    e: Error,
    r: Result<Step<ClientLobe>, Error>,
) -> bool {
    match pre.soma.id {
        None => r == Err::<Step<ClientLobe>, Error>(Error::NotInitialized),
        Some(me) => if src != me {
            r == Err::<Step<ClientLobe>, Error>(Error::UnexpectedSource)
        } else {
            reset_error_spec(pre.soma, e, r)
        },
    }
}

/// Phase that holds the open connection and its FIFO transaction queue.
#[derive(Debug)]
pub struct Open {
    /// The actor's mailbox helper.
    pub soma: Soma,
    /// Pending transactions, oldest first: id and kind of each request,
    /// in send order.
    pub transactions: Vec<(TransactionId, ClientMessageKind)>,
}

impl Open {
    /// Opens the connection: tells the client peer it is ready and starts
    /// with no pending transactions.
    pub fn open(soma: Soma) -> (r: Result<Step<ClientLobe>, Error>)
        ensures
            open_spec(soma, r),
    {
        let client = match soma.req_input(Role::Client) {
            Ok(h) => h,
            Err(e) => {
                return Err(e);
            },
        };
        let mut outbox: Vec<Outgoing> = Vec::new();
        outbox.push(Outgoing { dest: client, msg: Message::Ready });
        Ok(
            Step {
                actor: ClientLobe::Open(Open { soma, transactions: Vec::new() }),
                outbox,
                effects: Vec::new(),
                stop: false,
            },
        )
    }

    /// Handles one lifecycle event while the connection is open.
    pub fn update(self, event: Protocol) -> (r: Result<Step<ClientLobe>, Error>)
        ensures
            open_update_spec(self, event, r),
    {
        let mut this = self;
        let passed = match this.soma.update(event) {
            Ok(p) => p,
            Err(e) => {
                return Err(e);
            },
        };
        match passed {
            None => Ok(Step::advance(ClientLobe::Open(this))),
            Some(Protocol::Stop) => Ok(Step::advance(ClientLobe::Open(this))),
            Some(Protocol::Message(src, Message::ClientRequest(req))) => this.send(src, req),
            Some(Protocol::Message(src, Message::ClientReceive(wire))) => this.recv(src, wire),
            Some(Protocol::Message(src, Message::ClientTimeout(tid))) => this.on_timeout(src, tid),
            Some(Protocol::Message(_, Message::ClientDisconnect)) => Disconnect::disconnect(
                this.soma,
            ),
            Some(Protocol::Message(src, Message::ClientClosed)) => this.on_close(src),
            Some(Protocol::Message(src, Message::ClientError(e))) => this.on_error(src, e),
            Some(_) => Err(Error::UnexpectedMessage),
        }
    }

    /// Queues a request from the client peer, sends its frame, and races
    /// it against its timeout. At most one transaction per id may be
    /// outstanding; reusing a pending id is refused.
    pub fn send(self, src: Handle, req: ClientRequest) -> (r: Result<Step<ClientLobe>, Error>)
        ensures
            send_spec(self, src, req, r),
    {
        let client = match self.soma.req_input(Role::Client) {
            Ok(h) => h,
            Err(e) => {
                return Err(e);
            },
        };
        if src != client {
            return Err(Error::UnexpectedSource);
        }
        let Open { soma, mut transactions } = self;
        match find_transaction(&transactions, req.transaction) {
            Some(_) => Err(Error::DuplicateTransaction),
            None => {
                transactions.push((req.transaction, req.kind));
                let mut effects: Vec<Effect> = Vec::new();
                effects.push(Effect::SendFrame(req.request));
                effects.push(Effect::StartTimer(req.transaction, req.timeout));
                Ok(
                    Step {
                        actor: ClientLobe::Open(Open { soma, transactions }),
                        outbox: Vec::new(),
                        effects,
                        stop: false,
                    },
                )
            },
        }
    }

    /// Takes one frame from the transport: pairs it with the oldest
    /// pending transaction, strictly in send order, and forwards the
    /// response to the client peer.
    pub fn recv(self, src: Handle, msg: WireMessage) -> (r: Result<Step<ClientLobe>, Error>)
        ensures
            recv_frame_spec(self, src, msg, r),
    {
        let me = match self.soma.this_actor() {
            Ok(h) => h,
            Err(e) => {
                return Err(e);
            },
        };
        if src != me {
            return Err(Error::UnexpectedSource);
        }
        let rsp = match msg {
            WireMessage::Binary(rsp) => rsp,
            WireMessage::Other => {
                return Err(Error::NonBinaryMessage);
            },
        };
        let Open { soma, mut transactions } = self;
        if transactions.len() == 0 {
            return Err(Error::NoPendingTransaction);
        }
        let (tid, kind) = transactions[0];
        let rkind = ClientResponse::get_kind(&rsp);
        if kind != rkind {
            return Err(Error::TransactionKindMismatch { expected: kind, found: rkind });
        }
        let _ = transactions.remove(0);
        let client = match soma.req_input(Role::Client) {
            Ok(h) => h,
            Err(e) => {
                return Err(e);
            },
        };
        let mut outbox: Vec<Outgoing> = Vec::new();
        outbox.push(
            Outgoing { dest: client, msg: Message::ClientResponse(ClientResponse::new(tid, rsp)) },
        );
        let mut effects: Vec<Effect> = Vec::new();
        effects.push(Effect::CancelTimer(tid));
        Ok(
            Step {
                actor: ClientLobe::Open(Open { soma, transactions }),
                outbox,
                effects,
                stop: false,
            },
        )
    }

    /// Takes a timeout notice: if the transaction is still pending it
    /// leaves the queue and the client peer is told; if its response
    /// already won the race, the notice is a no-op.
    pub fn on_timeout(self, src: Handle, tid: TransactionId) -> (r: Result<Step<ClientLobe>, Error>)
        ensures
            timeout_spec(self, src, tid, r),
    {
        let me = match self.soma.this_actor() {
            Ok(h) => h,
            Err(e) => {
                return Err(e);
            },
        };
        if src != me {
            return Err(Error::UnexpectedSource);
        }
        let Open { soma, mut transactions } = self;
        match find_transaction(&transactions, tid) {
            Some(i) => {
                let _ = transactions.remove(i);
                let client = match soma.req_input(Role::Client) {
                    Ok(h) => h,
                    Err(e) => {
                        return Err(e);
                    },
                };
                let mut outbox: Vec<Outgoing> = Vec::new();
                outbox.push(Outgoing { dest: client, msg: Message::ClientTimeout(tid) });
                Ok(
                    Step {
                        actor: ClientLobe::Open(Open { soma, transactions }),
                        outbox,
                        effects: Vec::new(),
                        stop: false,
                    },
                )
            },
            None => {
                proof {
                    lemma_no_hit_no_index(transactions@, tid);
                }
                Ok(Step::advance(ClientLobe::Open(Open { soma, transactions })))
            },
        }
    }

    /// Takes the transport's closed notice and re-arms.
    pub fn on_close(self, src: Handle) -> (r: Result<Step<ClientLobe>, Error>)
        ensures
            on_close_spec(self, src, r),
    {
        let me = match self.soma.this_actor() {
            Ok(h) => h,
            Err(e) => {
                return Err(e);
            },
        };
        if src != me {
            return Err(Error::UnexpectedSource);
        }
        AwaitInstance::reset(self.soma)
    }

    /// Takes a transport error and re-arms, forwarding the error.
    pub fn on_error(self, src: Handle, e: Error) -> (r: Result<Step<ClientLobe>, Error>)
        ensures
            on_error_spec(self, src, e, r),
    {
        let me = match self.soma.this_actor() {
            Ok(h) => h,
            Err(err) => {
                return Err(err);
            },
        };
        if src != me {
            return Err(Error::UnexpectedSource);
        }
        AwaitInstance::reset_error(self.soma, e)
    }
}

/// Phase that waits for the transport to acknowledge a requested close.
#[derive(Debug)]
pub struct Disconnect {
    /// The actor's mailbox helper.
    pub soma: Soma,
}

impl Disconnect {
    /// Asks the transport to close and waits for the acknowledgment.
    pub fn disconnect(soma: Soma) -> (r: Result<Step<ClientLobe>, Error>)
        ensures
            disconnect_spec(soma, r),
    {
        let mut effects: Vec<Effect> = Vec::new();
        effects.push(Effect::CloseTransport);
        Ok(
            Step {
                actor: ClientLobe::Disconnect(Disconnect { soma }),
                outbox: Vec::new(),
                effects,
                stop: false,
            },
        )
    }

    /// Handles one lifecycle event while waiting for the close.
    pub fn update(self, event: Protocol) -> (r: Result<Step<ClientLobe>, Error>)
        ensures
            disconnect_update_spec(self, event, r),
    {
        let mut this = self;
        let passed = match this.soma.update(event) {
            Ok(p) => p,
            Err(e) => {
                return Err(e);
            },
        };
        match passed {
            None => Ok(Step::advance(ClientLobe::Disconnect(this))),
            Some(Protocol::Stop) => Ok(Step::advance(ClientLobe::Disconnect(this))),
            Some(Protocol::Message(_, Message::ClientClosed)) => AwaitInstance::reset(this.soma),
            Some(Protocol::Message(_, Message::ClientError(e))) => AwaitInstance::reset_error(
                this.soma,
                e,
            ),
            Some(_) => Err(Error::UnexpectedMessage),
        }
    }
}

/// The transaction queue after requests are sent in order onto an empty
/// queue, per `send_spec`: one entry per request.
pub open spec fn queue_after_sends(reqs: Seq<ClientRequest>) -> Seq<
    (TransactionId, ClientMessageKind),
>
    decreases reqs.len(),
{
    if reqs.len() == 0 {
        Seq::empty()
    } else {
        queue_after_sends(reqs.drop_last()).push((reqs.last().transaction, reqs.last().kind))
    }
}

/// Whether no two pending transactions share an id; `send`'s refusal of
/// duplicate ids keeps the queue this way.
pub open spec fn distinct_tids(q: Seq<(TransactionId, ClientMessageKind)>) -> bool {
    forall|i: int, j: int| 0 <= i < j < q.len() ==> q[i].0 != q[j].0
}

/// FIFO law: for any requests sent in order before any response arrives,
/// the queue pairs responses with requests positionally. After `i`
/// responses each resolved the head (per `recv_outcome`), the next
/// response is paired with entry `i`: the id and kind of the `i`-th
/// request, regardless of arrival timing; a kind mismatch on that pairing
/// is the `TransactionKindMismatch` protocol error by `recv_outcome`.
pub proof fn lemma_fifo_pairing(reqs: Seq<ClientRequest>, i: int)
    requires
        0 <= i < reqs.len(),
    ensures
        queue_after_sends(reqs).len() == reqs.len(),
        queue_after_sends(reqs)[i] == (reqs[i].transaction, reqs[i].kind),
    decreases reqs.len(),
{
    lemma_queue_after_sends_len(reqs);
    if i < reqs.len() - 1 {
        lemma_fifo_pairing(reqs.drop_last(), i);
    } else {
        lemma_queue_after_sends_len(reqs.drop_last());
    }
}

proof fn lemma_queue_after_sends_len(reqs: Seq<ClientRequest>)
    ensures
        queue_after_sends(reqs).len() == reqs.len(),
    decreases reqs.len(),
{
    if reqs.len() > 0 {
        lemma_queue_after_sends_len(reqs.drop_last());
    }
}

/// Timeout/response race, response first: once a response resolves the
/// oldest transaction (per `recv_outcome`), a timeout notice for that
/// transaction finds nothing in the queue, so by `timeout_outcome` it
/// removes nothing and the client peer receives no timeout for it: the
/// client peer sees exactly the response.
pub proof fn lemma_response_wins_race(q: Seq<(TransactionId, ClientMessageKind)>, rk: ClientMessageKind)
    requires
        distinct_tids(q),
        recv_outcome(q, rk) is Ok,
    ensures
        ({
            let after = recv_outcome(q, rk)->Ok_0.1;
            timeout_outcome(after, q[0].0) == (after, false)
        }),
{
    let after = recv_outcome(q, rk)->Ok_0.1;
    assert(forall|j: int| 0 <= j < after.len() ==> after[j] == q[j + 1]);
    assert(!queue_has(after, q[0].0));
    lemma_no_hit_no_index(after, q[0].0);
}

proof fn lemma_no_hit_no_index(q: Seq<(TransactionId, ClientMessageKind)>, tid: TransactionId)
    requires
        !queue_has(q, tid),
    ensures
        first_index_of(q, tid) < 0,
    decreases q.len(),
{
    if q.len() > 0 {
        assert(q[0].0 != tid);
        assert forall|j: int| 0 <= j < q.drop_first().len() implies q.drop_first()[j].0 != tid by {
            assert(q.drop_first()[j] == q[j + 1]);
        }
        lemma_no_hit_no_index(q.drop_first(), tid);
    }
}

/// Timeout/response race, timeout first: a timeout for the oldest
/// transaction removes it (per `timeout_outcome`), so a response arriving
/// afterwards is paired with the next transaction in line, never with the
/// timed-out one; if its kind differs from that next transaction's kind,
/// the pairing is the `TransactionKindMismatch` protocol error.
pub proof fn lemma_timeout_wins_race(q: Seq<(TransactionId, ClientMessageKind)>, rk: ClientMessageKind)
    requires
        q.len() >= 2,
        distinct_tids(q),
    ensures
        timeout_outcome(q, q[0].0) == (q.drop_first(), true),
        recv_outcome(q.drop_first(), rk) is Ok ==> recv_outcome(q.drop_first(), rk)->Ok_0.0 == q[1]
            && q[1].0 != q[0].0,
        rk != q[1].1 ==> recv_outcome(q.drop_first(), rk) == Err::<
            ((TransactionId, ClientMessageKind), Seq<(TransactionId, ClientMessageKind)>),
            Error,
        >(Error::TransactionKindMismatch { expected: q[1].1, found: rk }),
{
    assert(first_index_of(q, q[0].0) == 0);
    assert(q.remove(0) =~= q.drop_first());
    assert(q.drop_first()[0] == q[1]);
}

} // verus!
