//! A minimal actor substrate: typed mailboxes, declared port roles with
//! arity constraints, and the lifecycle protocol every actor obeys.
//!
//! Each actor receives exactly one `Init` (its identity), its port wiring,
//! exactly one `Start` once the network is assembled, then messages in
//! delivery order, and exactly one `Stop`. The substrate performs no I/O
//! itself: an actor's side effects are returned as values, and the process
//! around the network carries them out.

use vstd::prelude::*;
use crate::client::{Request, TransactionId};
use crate::errors::Error;
use crate::instance::InstanceSettings;
use crate::messages::{Message, Role};

verus! {

/// An opaque, comparable token assigned when an actor joins the network.
#[derive(Debug, Copy, Clone, Hash, Eq, PartialEq, Structural)]
pub struct Handle {
    /// Index of the actor this handle names.
    pub id: usize,
}

impl Handle {
    /// The identity of a handle.
    pub open spec fn id_spec(&self) -> nat {
        self.id as nat
    }

    /// Builds the handle with the given identity.
    pub fn new(id: usize) -> (h: Handle)
        ensures
            h.id_spec() == id,
    {
        Handle { id }
    }

    /// The index of the actor this handle names.
    pub fn index(&self) -> (i: usize)
        ensures
            i == self.id_spec(),
    {
        self.id
    }
}

/// Declared arity of a port: either exactly one peer is required, or any
/// number of peers is allowed.
#[derive(Debug, Copy, Clone, Eq, PartialEq, Structural)]
pub enum Constraint {
    /// Exactly one peer must be connected with this role.
    RequireOne(Role),
    /// Zero or more peers may be connected with this role.
    Variadic(Role),
}

/// A lifecycle event delivered to an actor.
#[derive(Debug)]
pub enum Protocol {
    /// Supplies the actor's own identity; delivered exactly once, first.
    Init(Handle),
    /// Wires an inbound port: the peer sends to this actor with the role.
    AddInput(Handle, Role),
    /// Wires an outbound port: this actor sends to the peer with the role.
    AddOutput(Handle, Role),
    /// Signals that network wiring is complete; delivered exactly once.
    Start,
    /// A message from the given sender.
    Message(Handle, Message),
    /// Signals network shutdown; delivered exactly once, last.
    Stop,
}

/// A message an actor hands to the substrate for delivery.
#[derive(Debug)]
pub struct Outgoing {
    /// The peer the message goes to.
    pub dest: Handle,
    /// The message itself.
    pub msg: Message,
}

/// An asynchronous side effect an actor asks the surrounding process to
/// perform. The outcome, if any, comes back as a later event.
#[derive(Debug)]
pub enum Effect {
    /// Attempt a transport connection to the url after the given delay.
    Connect {
        /// Endpoint of the game instance.
        url: String,
        /// Time units to wait before the attempt.
        delay: u32,
    },
    /// Serialize the request envelope and send it as one binary frame.
    SendFrame(Request),
    /// Arm a timer that posts a timeout for the transaction.
    StartTimer(TransactionId, u32),
    /// Disarm the timer of a resolved transaction.
    CancelTimer(TransactionId),
    /// Close the transport of this connection.
    CloseTransport,
    /// Launch a game instance process with the given settings.
    LaunchProcess(InstanceSettings),
}

/// What one lifecycle event did to an actor: its next value, the messages
/// it sends, the side effects it requests, and whether it asks the whole
/// network to stop.
#[derive(Debug)]
pub struct Step<A> {
    /// The actor's next value.
    pub actor: A,
    /// Messages to deliver to peers (or to the actor itself).
    pub outbox: Vec<Outgoing>,
    /// Side effects for the surrounding process.
    pub effects: Vec<Effect>,
    /// Whether the network should shut down.
    pub stop: bool,
}

impl<A> Step<A> {
    /// A step that only moves to the next value, with nothing sent.
    pub fn advance(actor: A) -> (s: Step<A>)
        ensures
            s.actor == actor,
            s.outbox@ == Seq::<Outgoing>::empty(),
            s.effects@ == Seq::<Effect>::empty(),
            s.stop == false,
    {
        Step { actor, outbox: Vec::new(), effects: Vec::new(), stop: false }
    }
}

/// An actor is a value that, given a lifecycle event, produces its next
/// value together with its sends and effects, or a terminal failure.
/// Any failure is fatal to the whole network.
pub trait Actor: Sized {
    /// Handles one lifecycle event.
    fn update(self, event: Protocol) -> Result<Step<Self>, Error>;
}

/// The sequence of handles connected with the given role, in wiring order.
pub open spec fn role_targets(conns: Seq<(Role, Handle)>, role: Role) -> Seq<Handle>
    decreases conns.len(),
{
    if conns.len() == 0 {
        Seq::empty()
    } else {
        let rest = role_targets(conns.drop_last(), role);
        if conns.last().0 == role {
            rest.push(conns.last().1)
        } else {
            rest
        }
    }
}

/// Whether one declared constraint is met by the actual connections.
pub open spec fn constraint_met(c: Constraint, conns: Seq<(Role, Handle)>) -> bool {
    match c {
        Constraint::RequireOne(role) => role_targets(conns, role).len() == 1,
        Constraint::Variadic(_) => true,
    }
}

/// Whether every declared constraint is met by the actual connections.
pub open spec fn constraints_met(cs: Seq<Constraint>, conns: Seq<(Role, Handle)>) -> bool {
    forall|i: int| 0 <= i < cs.len() ==> constraint_met(#[trigger] cs[i], conns)
}

/// The per-actor mailbox helper: it records the actor's identity and port
/// wiring as lifecycle events arrive, and checks the declared arity
/// constraints when `Start` is delivered.
#[derive(Debug)]
pub struct Soma {
    /// The actor's own identity, once `Init` assigned it.
    pub id: Option<Handle>,
    /// The declared constraints on inbound ports.
    pub input_constraints: Vec<Constraint>,
    /// The declared constraints on outbound ports.
    pub output_constraints: Vec<Constraint>,
    /// The inbound connections, in wiring order.
    pub inputs: Vec<(Role, Handle)>,
    /// The outbound connections, in wiring order.
    pub outputs: Vec<(Role, Handle)>,
}

impl Soma {
    /// Whether every declared arity constraint of this soma is met.
    pub open spec fn wired(&self) -> bool {
        constraints_met(self.input_constraints@, self.inputs@)
            && constraints_met(self.output_constraints@, self.outputs@)
    }

    /// Declares a soma with the given port constraints and no wiring yet.
    pub fn new(input_constraints: Vec<Constraint>, output_constraints: Vec<Constraint>) -> (s: Soma)
        ensures
            s.id is None,
            s.input_constraints@ == input_constraints@,
            s.output_constraints@ == output_constraints@,
            s.inputs@ == Seq::<(Role, Handle)>::empty(),
            s.outputs@ == Seq::<(Role, Handle)>::empty(),
    {
        Soma {
            id: None,
            input_constraints,
            output_constraints,
            inputs: Vec::new(),
            outputs: Vec::new(),
        }
    }

    /// Handles the bookkeeping part of a lifecycle event. `Init` and the
    /// wiring events are consumed; `Start` (after the arity check),
    /// messages and `Stop` are handed back to the actor's own logic.
    pub fn update(&mut self, event: Protocol) -> (r: Result<Option<Protocol>, Error>)
        ensures
            old(self).id == final(self).id || event is Init,
            match event {
                Protocol::Init(h) => {
                    &&& r == Ok::<Option<Protocol>, Error>(None)
                    &&& final(self).id == Some(h)
                    &&& final(self).inputs@ == old(self).inputs@
                    &&& final(self).outputs@ == old(self).outputs@
                    &&& final(self).input_constraints@ == old(self).input_constraints@
                    &&& final(self).output_constraints@ == old(self).output_constraints@
                },
                Protocol::AddInput(h, role) => {
                    &&& r == Ok::<Option<Protocol>, Error>(None)
                    &&& final(self).inputs@ == old(self).inputs@.push((role, h))
                    &&& final(self).outputs@ == old(self).outputs@
                    &&& final(self).input_constraints@ == old(self).input_constraints@
                    &&& final(self).output_constraints@ == old(self).output_constraints@
                },
                Protocol::AddOutput(h, role) => {
                    &&& r == Ok::<Option<Protocol>, Error>(None)
                    &&& final(self).outputs@ == old(self).outputs@.push((role, h))
                    &&& final(self).inputs@ == old(self).inputs@
                    &&& final(self).input_constraints@ == old(self).input_constraints@
                    &&& final(self).output_constraints@ == old(self).output_constraints@
                },
                Protocol::Start => {
                    &&& *final(self) == *old(self)
                    &&& old(self).wired() <==> r == Ok::<Option<Protocol>, Error>(Some(Protocol::Start))
                    &&& !old(self).wired() <==> (r matches Err(e) && e matches Error::ArityViolation { .. })
                },
                Protocol::Message(src, msg) => {
                    &&& *final(self) == *old(self)
                    &&& r == Ok::<Option<Protocol>, Error>(Some(Protocol::Message(src, msg)))
                },
                Protocol::Stop => {
                    &&& *final(self) == *old(self)
                    &&& r == Ok::<Option<Protocol>, Error>(Some(Protocol::Stop))
                },
            },
    {
        match event {
            Protocol::Init(h) => {
                self.id = Some(h);
                Ok(None)
            },
            Protocol::AddInput(h, role) => {
                self.inputs.push((role, h));
                Ok(None)
            },
            Protocol::AddOutput(h, role) => {
                self.outputs.push((role, h));
                Ok(None)
            },
            Protocol::Start => {
                match self.validate() {
                    Ok(()) => Ok(Some(Protocol::Start)),
                    Err(e) => Err(e),
                }
            },
            Protocol::Message(src, msg) => Ok(Some(Protocol::Message(src, msg))),
            Protocol::Stop => Ok(Some(Protocol::Stop)),
        }
    }

    /// Checks every declared arity constraint against the actual wiring.
    /// This is the only point at which network construction can fail.
    pub fn validate(&self) -> (r: Result<(), Error>)
        ensures
            r is Ok <==> self.wired(),
            r matches Err(e) ==> e matches Error::ArityViolation { .. },
    {
        match Self::check_constraints(&self.input_constraints, &self.inputs) {
            Ok(()) => Self::check_constraints(&self.output_constraints, &self.outputs),
            Err(e) => Err(e),
        }
    }

    /// Checks one side's constraints against one side's connections.
    fn check_constraints(cs: &Vec<Constraint>, conns: &Vec<(Role, Handle)>) -> (r: Result<
        (),
        Error,
    >)
        ensures
            r is Ok <==> constraints_met(cs@, conns@),
            r matches Err(e) ==> e matches Error::ArityViolation { .. },
    {
        let mut i: usize = 0;
        while i < cs.len()
            invariant
                i <= cs.len(),
                forall|j: int| 0 <= j < i ==> constraint_met(#[trigger] cs@[j], conns@),
            decreases cs.len() - i,
        {
            match cs[i] {
                Constraint::RequireOne(role) => {
                    let found = Self::count_role(conns, role);
                    if found != 1 {
                        return Err(Error::ArityViolation { role, found });
                    }
                },
                Constraint::Variadic(_) => {},
            }
            i = i + 1;
        }
        Ok(())
    }

    /// Counts the connections wired with the given role.
    fn count_role(conns: &Vec<(Role, Handle)>, role: Role) -> (n: usize)
        ensures
            n == role_targets(conns@, role).len(),
    {
        let mut n: usize = 0;
        let mut i: usize = 0;
        while i < conns.len()
            invariant
                i <= conns.len(),
                n == role_targets(conns@.take(i as int), role).len(),
                n <= i,
            decreases conns.len() - i,
        {
            proof {
                assert(conns@.take(i + 1 as int).drop_last() =~= conns@.take(i as int));
            }
            if conns[i].0 == role {
                n = n + 1;
            }
            i = i + 1;
        }
        proof {
            assert(conns@.take(conns@.len() as int) =~= conns@);
        }
        n
    }

    /// The actor's own identity; an error before `Init`.
    pub fn this_actor(&self) -> (r: Result<Handle, Error>)
        ensures
            match self.id {
                Some(h) => r == Ok::<Handle, Error>(h),
                None => r == Err::<Handle, Error>(Error::NotInitialized),
            },
    {
        match self.id {
            Some(h) => Ok(h),
            None => Err(Error::NotInitialized),
        }
    }

    /// The unique inbound peer wired with the role; an error if the wiring
    /// holds none, or several.
    pub fn req_input(&self, role: Role) -> (r: Result<Handle, Error>)
        ensures
            ({
                let ts = role_targets(self.inputs@, role);
                if ts.len() == 1 {
                    r == Ok::<Handle, Error>(ts[0])
                } else {
                    r == Err::<Handle, Error>(Error::MissingPeer { role })
                }
            }),
    {
        let found = Self::collect_role(&self.inputs, role);
        if found.len() == 1 {
            Ok(found[0])
        } else {
            Err(Error::MissingPeer { role })
        }
    }

    /// The unique outbound peer wired with the role; an error if the wiring
    /// holds none, or several.
    pub fn req_output(&self, role: Role) -> (r: Result<Handle, Error>)
        ensures
            ({
                let ts = role_targets(self.outputs@, role);
                if ts.len() == 1 {
                    r == Ok::<Handle, Error>(ts[0])
                } else {
                    r == Err::<Handle, Error>(Error::MissingPeer { role })
                }
            }),
    {
        let found = Self::collect_role(&self.outputs, role);
        if found.len() == 1 {
            Ok(found[0])
        } else {
            Err(Error::MissingPeer { role })
        }
    }

    /// Every outbound peer wired with the role, in wiring order.
    pub fn var_output(&self, role: Role) -> (r: Vec<Handle>)
        ensures
            r@ == role_targets(self.outputs@, role),
    {
        Self::collect_role(&self.outputs, role)
    }

    /// Collects the handles wired with the given role, in order.
    fn collect_role(conns: &Vec<(Role, Handle)>, role: Role) -> (r: Vec<Handle>)
        ensures
            r@ == role_targets(conns@, role),
    {
        let mut r: Vec<Handle> = Vec::new();
        let mut i: usize = 0;
        while i < conns.len()
            invariant
                i <= conns.len(),
                r@ == role_targets(conns@.take(i as int), role),
            decreases conns.len() - i,
        {
            proof {
                assert(conns@.take(i + 1 as int).drop_last() =~= conns@.take(i as int));
            }
            if conns[i].0 == role {
                r.push(conns[i].1);
            }
            i = i + 1;
        }
        proof {
            assert(conns@.take(conns@.len() as int) =~= conns@);
        }
        r
    }
}

/// How a soma evolves under one bookkeeping event, all else untouched.
pub open spec fn soma_step(pre: Soma, post: Soma, event: Protocol) -> bool {
    &&& post.input_constraints@ == pre.input_constraints@
    &&& post.output_constraints@ == pre.output_constraints@
    &&& match event {
        Protocol::Init(h) => post.id == Some(h) && post.inputs@ == pre.inputs@ && post.outputs@
            == pre.outputs@,
        Protocol::AddInput(h, role) => post.id == pre.id && post.inputs@ == pre.inputs@.push(
            (role, h),
        ) && post.outputs@ == pre.outputs@,
        Protocol::AddOutput(h, role) => post.id == pre.id && post.inputs@ == pre.inputs@
            && post.outputs@ == pre.outputs@.push((role, h)),
        _ => post == pre,
    }
}

/// Where a network stands in its lifecycle.
#[derive(Debug, Copy, Clone, Eq, PartialEq, Structural)]
pub enum NetPhase {
    /// Actors are being added and wired.
    Assembling,
    /// Every actor has been started; messages are being relayed.
    Running,
    /// `Stop` has been delivered to every actor, or a failure ended the run.
    Stopped,
}

/// A message in flight from one actor to another.
#[derive(Debug)]
pub struct Envelope {
    /// The actor that sent the message.
    pub src: Handle,
    /// The actor it goes to.
    pub dest: Handle,
    /// The message itself.
    pub msg: Message,
}

/// The handle of the actor at the given index.
pub open spec fn handle_of(i: int) -> Handle {
    Handle { id: i as usize }
}

/// The `Init` deliveries of an assembly: each actor, in index order,
/// receives its own identity.
pub open spec fn init_events(n: nat) -> Seq<(Handle, Protocol)> {
    Seq::new(n, |i: int| (handle_of(i), Protocol::Init(handle_of(i))))
}

/// The `Start` deliveries of an assembly, in actor order.
pub open spec fn start_events(n: nat) -> Seq<(Handle, Protocol)> {
    Seq::new(n, |i: int| (handle_of(i), Protocol::Start))
}

/// The `Stop` broadcast of a shutdown, in actor order.
pub open spec fn stop_events(n: nat) -> Seq<(Handle, Protocol)> {
    Seq::new(n, |i: int| (handle_of(i), Protocol::Stop))
}

/// The two wiring deliveries of one edge: the source learns its outbound
/// port, the destination its inbound one.
pub open spec fn edge_events(e: (Handle, Handle, Role)) -> Seq<(Handle, Protocol)> {
    seq![(e.0, Protocol::AddOutput(e.1, e.2)), (e.1, Protocol::AddInput(e.0, e.2))]
}

/// The wiring deliveries of an assembly, edge by edge in wiring order.
pub open spec fn wiring_events(edges: Seq<(Handle, Handle, Role)>) -> Seq<(Handle, Protocol)>
    decreases edges.len(),
{
    if edges.len() == 0 {
        Seq::empty()
    } else {
        wiring_events(edges.drop_last()) + edge_events(edges.last())
    }
}

/// Everything an assembly delivers, in order: `Init` per actor, the
/// wiring of every edge, then `Start` per actor.
pub open spec fn assembly_events(n: nat, edges: Seq<(Handle, Handle, Role)>) -> Seq<
    (Handle, Protocol),
> {
    init_events(n) + wiring_events(edges) + start_events(n)
}

/// The message deliveries that consuming the given envelopes performs, in
/// order: each in-range envelope reaches its destination as a `Message`
/// carrying its recorded source; one addressed past the actors is dropped.
pub open spec fn delivered_events(consumed: Seq<Envelope>, n: nat) -> Seq<(Handle, Protocol)>
    decreases consumed.len(),
{
    if consumed.len() == 0 {
        Seq::empty()
    } else {
        delivered_events(consumed.drop_last(), n) + (if consumed.last().dest.id_spec() < n {
            seq![(consumed.last().dest, Protocol::Message(consumed.last().src, consumed.last().msg))]
        } else {
            Seq::empty()
        })
    }
}

/// An extension that is a prefix of the plan makes the grown log carry a
/// prefix of the plan past the old log.
proof fn lemma_plan_prefix(
    base: Seq<(Handle, Protocol)>,
    grown: Seq<(Handle, Protocol)>,
    part: Seq<(Handle, Protocol)>,
    plan: Seq<(Handle, Protocol)>,
)
    requires
        grown == base + part,
        part.len() <= plan.len(),
        part =~= plan.subrange(0, part.len() as int),
    ensures
        base.is_prefix_of(grown),
        grown.skip(base.len() as int).is_prefix_of(plan),
{
    assert(grown.subrange(0, base.len() as int) =~= base);
    assert(grown.skip(base.len() as int) =~= part);
}

/// The wiring deliveries of a list of edges are two per edge.
proof fn lemma_wiring_events_len(edges: Seq<(Handle, Handle, Role)>)
    ensures
        wiring_events(edges).len() == 2 * edges.len(),
    decreases edges.len(),
{
    if edges.len() > 0 {
        lemma_wiring_events_len(edges.drop_last());
    }
}

/// The first wiring delivery of a non-empty edge list is its first
/// edge's outbound event.
proof fn lemma_wiring_events_head(edges: Seq<(Handle, Handle, Role)>)
    requires
        edges.len() > 0,
    ensures
        wiring_events(edges).len() >= 2,
        wiring_events(edges)[0] == (edges[0].0, Protocol::AddOutput(edges[0].1, edges[0].2)),
        wiring_events(edges)[1] == (edges[0].1, Protocol::AddInput(edges[0].0, edges[0].2)),
    decreases edges.len(),
{
    assert(wiring_events(edges) == wiring_events(edges.drop_last()) + edge_events(edges.last()));
    if edges.len() == 1 {
        assert(edges.drop_last() =~= Seq::<(Handle, Handle, Role)>::empty());
        assert(wiring_events(edges.drop_last()) =~= Seq::<(Handle, Protocol)>::empty());
        assert(edges.last() == edges[0]);
        assert(wiring_events(edges)[0] == edge_events(edges[0])[0]);
        assert(wiring_events(edges)[1] == edge_events(edges[0])[1]);
    } else {
        lemma_wiring_events_head(edges.drop_last());
        assert(edges.drop_last()[0] == edges[0]);
        lemma_wiring_events_len(edges.drop_last());
        assert(wiring_events(edges)[0] == wiring_events(edges.drop_last())[0]);
        assert(wiring_events(edges)[1] == wiring_events(edges.drop_last())[1]);
    }
}

/// The wiring deliveries split at any edge boundary.
proof fn lemma_wiring_events_split(edges: Seq<(Handle, Handle, Role)>, k: int)
    requires
        0 <= k <= edges.len(),
    ensures
        wiring_events(edges) =~= wiring_events(edges.take(k)) + wiring_events(edges.skip(k)),
    decreases edges.len(),
{
    if k == edges.len() {
        assert(edges.take(k) =~= edges);
        assert(edges.skip(k) =~= Seq::empty());
    } else {
        lemma_wiring_events_split(edges.drop_last(), k);
        assert(edges.drop_last().take(k) =~= edges.take(k));
        assert(edges.skip(k).drop_last() =~= edges.drop_last().skip(k));
        assert(edges.skip(k).len() > 0);
        assert(edges.skip(k).last() == edges.last());
        assert(wiring_events(edges.skip(k)) == wiring_events(edges.drop_last().skip(k))
            + edge_events(edges.last()));
    }
}

/// The actor network: it owns its actors, relays their messages in FIFO
/// order, and collects their side-effect requests for the surrounding
/// process. Ghost state records the delivery history: which actor received
/// which lifecycle event, and which envelopes were enqueued and consumed.
pub struct Network<A: Actor> {
    actors: Vec<A>,
    edges: Vec<(Handle, Handle, Role)>,
    queue: Vec<Envelope>,
    effects: Vec<(Handle, Effect)>,
    phase: NetPhase,
    stop_requested: bool,
    log: Ghost<Seq<(Handle, Protocol)>>,
    history: Ghost<Seq<Envelope>>,
    processed: Ghost<Seq<Envelope>>,
}

impl<A: Actor> Network<A> {
    /// How many actors the network holds.
    pub closed spec fn n_actors(&self) -> nat {
        self.actors@.len()
    }

    /// The directed edges of the connection graph, in wiring order.
    pub closed spec fn edges_seq(&self) -> Seq<(Handle, Handle, Role)> {
        self.edges@
    }

    /// The messages in flight, oldest first.
    pub closed spec fn queue_seq(&self) -> Seq<Envelope> {
        self.queue@
    }

    /// The side effects collected and not yet taken.
    pub closed spec fn effects_seq(&self) -> Seq<(Handle, Effect)> {
        self.effects@
    }

    /// Where the network stands in its lifecycle.
    pub closed spec fn phase_spec(&self) -> NetPhase {
        self.phase
    }

    /// Whether an actor has asked the network to shut down.
    pub closed spec fn stop_requested_spec(&self) -> bool {
        self.stop_requested
    }

    /// The delivery history: every (actor, event) delivery, in order.
    pub closed spec fn log_seq(&self) -> Seq<(Handle, Protocol)> {
        self.log@
    }

    /// Every envelope ever enqueued, in order.
    pub closed spec fn history_seq(&self) -> Seq<Envelope> {
        self.history@
    }

    /// Every envelope consumed from the queue's front, in order.
    pub closed spec fn processed_seq(&self) -> Seq<Envelope> {
        self.processed@
    }

    /// Every edge names actors of this network.
    pub open spec fn edges_wf(&self) -> bool {
        forall|k: int|
            0 <= k < self.edges_seq().len() ==> (#[trigger] self.edges_seq()[k]).0.id_spec()
                < self.n_actors() && self.edges_seq()[k].1.id_spec() < self.n_actors()
    }

    /// The queue discipline: what was ever enqueued is exactly what was
    /// consumed, in order, followed by what is still in flight. Together
    /// with `processed_seq` growing only at its back, this is the FIFO
    /// guarantee: envelopes leave the queue in enqueue order.
    pub open spec fn fifo_wf(&self) -> bool {
        self.history_seq() == self.processed_seq() + self.queue_seq()
    }

    /// Builds a network holding only its main actor.
    pub fn new(main: A) -> (n: Network<A>)
        ensures
            n.n_actors() == 1,
            n.actor_at(0) == main,
            n.edges_seq() == Seq::<(Handle, Handle, Role)>::empty(),
            n.queue_seq() == Seq::<Envelope>::empty(),
            n.effects_seq() == Seq::<(Handle, Effect)>::empty(),
            n.phase_spec() is Assembling,
            n.log_seq() == Seq::<(Handle, Protocol)>::empty(),
            n.history_seq() == Seq::<Envelope>::empty(),
            n.processed_seq() == Seq::<Envelope>::empty(),
            n.edges_wf(),
            n.fifo_wf(),
            !n.stop_requested_spec(),
    {
        let mut actors: Vec<A> = Vec::new();
        actors.push(main);
        Network {
            actors,
            edges: Vec::new(),
            queue: Vec::new(),
            effects: Vec::new(),
            phase: NetPhase::Assembling,
            stop_requested: false,
            log: Ghost(Seq::empty()),
            history: Ghost(Seq::empty()),
            processed: Ghost(Seq::empty()),
        }
    }

    /// The handle of the main actor.
    pub fn get_main_handle(&self) -> (h: Handle)
        ensures
            h.id_spec() == 0,
    {
        Handle::new(0)
    }

    /// Adds an actor and returns its identity.
    pub fn add_actor(&mut self, actor: A) -> (h: Handle)
        requires
            old(self).phase_spec() is Assembling,
        ensures
            h.id_spec() == old(self).n_actors(),
            final(self).n_actors() == old(self).n_actors() + 1,
            final(self).actor_at(h.id_spec() as int) == actor,
            forall|i: int|
                0 <= i < old(self).n_actors() ==> final(self).actor_at(i) == old(self).actor_at(i),
            final(self).edges_seq() == old(self).edges_seq(),
            final(self).phase_spec() is Assembling,
            final(self).queue_seq() == old(self).queue_seq(),
            final(self).effects_seq() == old(self).effects_seq(),
            final(self).log_seq() == old(self).log_seq(),
            final(self).history_seq() == old(self).history_seq(),
            final(self).processed_seq() == old(self).processed_seq(),
            final(self).stop_requested_spec() == old(self).stop_requested_spec(),
            old(self).edges_wf() ==> final(self).edges_wf(),
            old(self).fifo_wf() ==> final(self).fifo_wf(),
    {
        let h = Handle::new(self.actors.len());
        self.actors.push(actor);
        h
    }

    /// Wires a directed edge: the source actor's outbound port of the role
    /// to the destination actor's inbound port of the same role.
    pub fn connect(&mut self, src: Handle, dest: Handle, role: Role) -> (r: Result<(), Error>)
        requires
            old(self).phase_spec() is Assembling,
        ensures
            final(self).n_actors() == old(self).n_actors(),
            forall|i: int|
                0 <= i < old(self).n_actors() ==> final(self).actor_at(i) == old(self).actor_at(i),
            final(self).phase_spec() is Assembling,
            final(self).queue_seq() == old(self).queue_seq(),
            final(self).effects_seq() == old(self).effects_seq(),
            final(self).log_seq() == old(self).log_seq(),
            final(self).history_seq() == old(self).history_seq(),
            final(self).processed_seq() == old(self).processed_seq(),
            final(self).stop_requested_spec() == old(self).stop_requested_spec(),
            old(self).edges_wf() ==> final(self).edges_wf(),
            old(self).fifo_wf() ==> final(self).fifo_wf(),
            if src.id_spec() < old(self).n_actors() && dest.id_spec() < old(self).n_actors() {
                r == Ok::<(), Error>(()) && final(self).edges_seq() == old(self).edges_seq().push(
                    (src, dest, role),
                )
            } else {
                r == Err::<(), Error>(Error::InvalidHandle) && final(self).edges_seq() == old(self).edges_seq()
            },
    {
        if src.index() < self.actors.len() && dest.index() < self.actors.len() {
            self.edges.push((src, dest, role));
            proof {
                if old(self).edges_wf() {
                    assert forall|k: int| 0 <= k < self.edges@.len() implies (
                    #[trigger] self.edges@[k]).0.id_spec() < self.actors@.len()
                        && self.edges@[k].1.id_spec() < self.actors@.len() by {
                        if k < self.edges@.len() - 1 {
                            assert(self.edges@[k] == old(self).edges_seq()[k]);
                        }
                    }
                }
            }
            Ok(())
        } else {
            Err(Error::InvalidHandle)
        }
    }

    /// Delivers one event to the actor at the index and absorbs its step:
    /// the delivery is recorded in the log, outbox messages join the back
    /// of the in-flight queue in outbox order, effects are collected, a
    /// stop request is recorded. An event for an index past the actors is
    /// dropped unrecorded, as a send to a departed actor is.
    fn deliver_event(&mut self, idx: usize, event: Protocol) -> (r: Result<(), Error>)
        ensures
            r is Ok ==> final(self).n_actors() == old(self).n_actors() && final(self).edges_seq()
                == old(self).edges_seq() && final(self).phase_spec() == old(self).phase_spec(),
            // The relay never reorders what is already in flight: new
            // sends only join the back of the queue.
            r is Ok ==> final(self).queue_seq().len() >= old(self).queue_seq().len() && final(
                self).queue_seq().take(old(self).queue_seq().len() as int) == old(
                self).queue_seq(),
            // Every delivery is recorded: the actor at the index received
            // exactly this event, whether or not it then failed.
            idx < old(self).n_actors() ==> final(self).log_seq() == old(self).log_seq().push(
                (handle_of(idx as int), event),
            ),
            idx >= old(self).n_actors() ==> r is Ok && *final(self) == *old(self),
            r is Ok ==> final(self).processed_seq() == old(self).processed_seq(),
            r is Ok ==> (old(self).fifo_wf() ==> final(self).fifo_wf()),
            r is Err ==> final(self).phase_spec() is Stopped,
    {
        if idx >= self.actors.len() {
            return Ok(());
        }
        let ghost ev = event;
        proof {
            self.log@ = self.log@.push((handle_of(idx as int), ev));
        }
        let actor = self.actors.remove(idx);
        match actor.update(event) {
            Ok(step) => {
                self.actors.insert(idx, step.actor);
                let src = Handle::new(idx);
                let ghost n_actors0 = self.actors@.len();
                let ghost edges0 = self.edges@;
                let ghost phase0 = self.phase;
                let ghost queue0 = self.queue@;
                let ghost log0 = self.log@;
                let ghost processed0 = self.processed@;
                let ghost fifo0 = self.history@ == self.processed@ + self.queue@;
                let mut outbox = step.outbox;
                while outbox.len() > 0
                    invariant
                        self.actors@.len() == n_actors0,
                        self.edges@ == edges0,
                        self.phase == phase0,
                        self.queue@.len() >= queue0.len(),
                        self.queue@.take(queue0.len() as int) == queue0,
                        self.log@ == log0,
                        self.processed@ == processed0,
                        fifo0 ==> self.history@ == self.processed@ + self.queue@,
                    decreases outbox.len(),
                {
                    let out = outbox.remove(0);
                    let ghost gdest = out.dest;
                    let ghost gmsg = out.msg;
                    self.queue.push(Envelope { src, dest: out.dest, msg: out.msg });
                    proof {
                        self.history@ = self.history@.push(
                            Envelope { src, dest: gdest, msg: gmsg },
                        );
                        assert(self.queue@.take(queue0.len() as int) =~= queue0);
                        if fifo0 {
                            assert(self.history@ =~= self.processed@ + self.queue@);
                        }
                    }
                }
                let mut effects = step.effects;
                while effects.len() > 0
                    invariant
                        self.actors@.len() == n_actors0,
                        self.edges@ == edges0,
                        self.phase == phase0,
                        self.queue@.len() >= queue0.len(),
                        self.queue@.take(queue0.len() as int) == queue0,
                        self.log@ == log0,
                        self.processed@ == processed0,
                        fifo0 ==> self.history@ == self.processed@ + self.queue@,
                    decreases effects.len(),
                {
                    let e = effects.remove(0);
                    self.effects.push((src, e));
                }
                if step.stop {
                    self.stop_requested = true;
                }
                Ok(())
            },
            Err(e) => {
                self.phase = NetPhase::Stopped;
                Err(e)
            },
        }
    }

    /// Assembles and starts the network: delivers `Init` to every actor,
    /// wires every edge, then delivers `Start` in actor order; the log
    /// records exactly this plan. The first failing actor aborts the
    /// whole run; an unmet arity constraint surfaces here, before any
    /// later actor sees `Start`.
    #[verifier::loop_isolation(false)]
    #[verifier::rlimit(60)]
    pub fn start(&mut self) -> (r: Result<(), Error>)
        requires
            old(self).phase_spec() is Assembling,
            old(self).edges_wf(),
        ensures
            r is Ok ==> final(self).phase_spec() is Running || final(self).phase_spec() is Stopped,
            r is Ok ==> final(self).n_actors() == old(self).n_actors(),
            r is Ok ==> final(self).edges_seq() == old(self).edges_seq(),
            // The delivery history is exactly the assembly plan: Init per
            // actor in index order, the wiring of every edge in wiring
            // order, then Start per actor - followed by the Stop
            // broadcast when an actor requested a shutdown during it.
            r is Ok && final(self).phase_spec() is Running ==> final(self).log_seq() == old(
                self).log_seq() + assembly_events(old(self).n_actors(), old(self).edges_seq()),
            r is Ok && final(self).phase_spec() is Stopped ==> final(self).log_seq() == old(
                self).log_seq() + assembly_events(old(self).n_actors(), old(self).edges_seq())
                + stop_events(old(self).n_actors()),
            // A failure still accounts for every delivery made up to and
            // including the failing one: the log grew by a non-empty
            // prefix of the plan.
            r is Err ==> final(self).phase_spec() is Stopped && old(self).log_seq().is_prefix_of(
                final(self).log_seq(),
            ) && final(self).log_seq().len() > old(self).log_seq().len() && final(
                self).log_seq().skip(old(self).log_seq().len() as int).is_prefix_of(
                assembly_events(old(self).n_actors(), old(self).edges_seq()) + stop_events(
                    old(self).n_actors(),
                ),
            ),
            r is Ok ==> final(self).processed_seq() == old(self).processed_seq(),
            r is Ok ==> (old(self).fifo_wf() ==> final(self).fifo_wf()),
    {
        let ghost gn = old(self).n_actors();
        let ghost gedges = old(self).edges_seq();
        let ghost plan = assembly_events(gn, gedges) + stop_events(gn);
        let mut i: usize = 0;
        let n = self.actors.len();
        while i < n
            invariant
                i <= n,
                self.phase_spec() is Assembling,
                self.actors@.len() == gn,
                self.edges@ == gedges,
                self.log@ == old(self).log_seq() + init_events(gn).take(i as int),
                self.processed@ == old(self).processed_seq(),
                old(self).fifo_wf() ==> self.history@ == self.processed@ + self.queue@,
            decreases n - i,
        {
            proof {
                assert(init_events(gn).take(i + 1).drop_last() =~= init_events(gn).take(i as int));
            }
            match self.deliver_event(i, Protocol::Init(Handle::new(i))) {
                Ok(()) => {},
                Err(e) => {
                    proof {
                        let part = init_events(gn).take(i + 1);
                        assert(self.log@ =~= old(self).log_seq() + part);
                        assert(part.len() <= plan.len());
                        assert(part =~= plan.subrange(0, part.len() as int));
                        lemma_plan_prefix(old(self).log_seq(), self.log@, part, plan);
                    }
                    return Err(e);
                },
            }
            proof {
                assert(self.log@ =~= old(self).log_seq() + init_events(gn).take(i + 1));
            }
            i = i + 1;
        }
        proof {
            assert(init_events(gn).take(n as int) =~= init_events(gn));
        }
        let mut k: usize = 0;
        while k < self.edges.len()
            invariant
                k <= self.edges@.len(),
                self.phase_spec() is Assembling,
                self.actors@.len() == gn,
                self.edges@ == gedges,
                self.log@ == old(self).log_seq() + init_events(gn) + wiring_events(
                    gedges.take(k as int),
                ),
                self.processed@ == old(self).processed_seq(),
                old(self).fifo_wf() ==> self.history@ == self.processed@ + self.queue@,
            decreases self.edges@.len() - k,
        {
            let (src, dest, role) = self.edges[k];
            proof {
                assert(gedges.take(k + 1).drop_last() =~= gedges.take(k as int));
                assert(gedges.take(k + 1).last() == gedges[k as int]);
                assert(src.id_spec() < gn && dest.id_spec() < gn);
            }
            match self.deliver_event(src.index(), Protocol::AddOutput(dest, role)) {
                Ok(()) => {},
                Err(e) => {
                    proof {
                        let part = init_events(gn) + wiring_events(gedges.take(k as int)).push(
                            (src, Protocol::AddOutput(dest, role)),
                        );
                        assert(self.log@ =~= old(self).log_seq() + part);
                        lemma_wiring_events_len(gedges.take(k as int));
                        lemma_wiring_events_len(gedges);
                        lemma_wiring_events_split(gedges, k as int);
                        assert(wiring_events(gedges.skip(k as int)).len() > 0) by {
                            lemma_wiring_events_len(gedges.skip(k as int));
                        }
                        assert(gedges.skip(k as int)[0] == gedges[k as int]);
                        assert(wiring_events(gedges.skip(k as int))[0] == (
                            src,
                            Protocol::AddOutput(dest, role),
                        )) by {
                            lemma_wiring_events_head(gedges.skip(k as int));
                        }
                        assert(part.len() <= plan.len());
                        assert(part =~= plan.subrange(0, part.len() as int));
                        lemma_plan_prefix(old(self).log_seq(), self.log@, part, plan);
                    }
                    return Err(e);
                },
            }
            match self.deliver_event(dest.index(), Protocol::AddInput(src, role)) {
                Ok(()) => {},
                Err(e) => {
                    proof {
                        let part = init_events(gn) + wiring_events(gedges.take(k + 1));
                        assert(self.log@ =~= old(self).log_seq() + part);
                        lemma_wiring_events_len(gedges.take(k + 1));
                        lemma_wiring_events_len(gedges);
                        lemma_wiring_events_split(gedges, k + 1);
                        assert(part.len() <= plan.len());
                        assert(part =~= plan.subrange(0, part.len() as int)) by {
                            lemma_wiring_events_split(gedges, k + 1);
                        }
                        lemma_plan_prefix(old(self).log_seq(), self.log@, part, plan);
                    }
                    return Err(e);
                },
            }
            proof {
                assert(self.log@ =~= old(self).log_seq() + init_events(gn) + wiring_events(
                    gedges.take(k + 1),
                ));
            }
            k = k + 1;
        }
        proof {
            assert(gedges.take(gedges.len() as int) =~= gedges);
        }
        let mut i: usize = 0;
        let n = self.actors.len();
        while i < n
            invariant
                i <= n,
                self.phase_spec() is Assembling,
                self.actors@.len() == gn,
                self.edges@ == gedges,
                self.log@ == old(self).log_seq() + init_events(gn) + wiring_events(gedges)
                    + start_events(gn).take(i as int),
                self.processed@ == old(self).processed_seq(),
                old(self).fifo_wf() ==> self.history@ == self.processed@ + self.queue@,
            decreases n - i,
        {
            proof {
                assert(start_events(gn).take(i + 1).drop_last() =~= start_events(gn).take(i as int));
            }
            match self.deliver_event(i, Protocol::Start) {
                Ok(()) => {},
                Err(e) => {
                    proof {
                        let part = init_events(gn) + wiring_events(gedges) + start_events(gn).take(
                            i + 1,
                        );
                        assert(self.log@ =~= old(self).log_seq() + part);
                        assert(part.len() <= plan.len());
                        assert(part =~= plan.subrange(0, part.len() as int));
                        lemma_plan_prefix(old(self).log_seq(), self.log@, part, plan);
                    }
                    return Err(e);
                },
            }
            proof {
                assert(self.log@ =~= old(self).log_seq() + init_events(gn) + wiring_events(gedges)
                    + start_events(gn).take(i + 1));
            }
            i = i + 1;
        }
        proof {
            assert(start_events(gn).take(n as int) =~= start_events(gn));
            assert(self.log@ =~= old(self).log_seq() + assembly_events(gn, gedges));
        }
        self.phase = NetPhase::Running;
        if self.stop_requested {
            let ghost mid = self.log@;
            match self.shutdown() {
                Ok(()) => {
                    proof {
                        assert(self.log@ =~= old(self).log_seq() + assembly_events(gn, gedges)
                            + stop_events(gn));
                    }
                    Ok(())
                },
                Err(e) => {
                    proof {
                        let ext = self.log@.skip(mid.len() as int);
                        assert(ext.is_prefix_of(stop_events(gn)));
                        assert(self.log@.subrange(0, mid.len() as int) =~= mid);
                        let whole = self.log@.skip(old(self).log_seq().len() as int);
                        let plan_head = assembly_events(gn, gedges);
                        assert(mid == old(self).log_seq() + plan_head);
                        assert(whole =~= plan_head + ext) by {
                            assert forall|j: int| 0 <= j < whole.len() implies whole[j] == (plan_head
                                + ext)[j] by {
                                assert(whole[j] == self.log@[old(self).log_seq().len() + j]);
                                if j < plan_head.len() {
                                    assert(self.log@[old(self).log_seq().len() + j] == mid[old(
                                        self,
                                    ).log_seq().len() + j]);
                                } else {
                                    assert(ext[j - plan_head.len()] == self.log@[mid.len() + (j
                                        - plan_head.len())]);
                                }
                            }
                        }
                        assert(whole =~= assembly_events(gn, gedges) + ext);
                        assert(ext =~= stop_events(gn).subrange(0, ext.len() as int));
                        assert(whole.len() <= plan.len());
                        assert(whole =~= plan.subrange(0, whole.len() as int));
                        assert(whole.is_prefix_of(plan));
                        assert(old(self).log_seq().is_prefix_of(self.log@));
                    }
                    Err(e)
                },
            }
        } else {
            Ok(())
        }
    }

    /// Delivers `Stop` to every actor, in actor order, and ends the run.
    #[verifier::loop_isolation(false)]
    fn shutdown(&mut self) -> (r: Result<(), Error>)
        ensures
            final(self).phase_spec() is Stopped,
            r is Ok ==> final(self).n_actors() == old(self).n_actors(),
            r is Ok ==> final(self).edges_seq() == old(self).edges_seq(),
            // Every actor received Stop.
            r is Ok ==> final(self).log_seq() == old(self).log_seq() + stop_events(
                old(self).n_actors(),
            ),
            r is Err ==> old(self).log_seq().is_prefix_of(final(self).log_seq()) && final(
                self).log_seq().len() > old(self).log_seq().len() && final(self).log_seq().skip(
                old(self).log_seq().len() as int,
            ).is_prefix_of(stop_events(old(self).n_actors())),
            r is Ok ==> final(self).processed_seq() == old(self).processed_seq(),
            r is Ok ==> (old(self).fifo_wf() ==> final(self).fifo_wf()),
    {
        let ghost gn = old(self).n_actors();
        let mut i: usize = 0;
        let n = self.actors.len();
        while i < n
            invariant
                i <= n,
                self.actors@.len() == gn,
                self.edges@ == old(self).edges_seq(),
                self.log@ == old(self).log_seq() + stop_events(gn).take(i as int),
                self.processed@ == old(self).processed_seq(),
                old(self).fifo_wf() ==> self.history@ == self.processed@ + self.queue@,
            decreases n - i,
        {
            proof {
                assert(stop_events(gn).take(i + 1).drop_last() =~= stop_events(gn).take(i as int));
            }
            match self.deliver_event(i, Protocol::Stop) {
                Ok(()) => {},
                Err(e) => {
                    proof {
                        let part = stop_events(gn).take(i + 1);
                        assert(self.log@ =~= old(self).log_seq() + part);
                        assert(part.len() <= stop_events(gn).len());
                        assert(part =~= stop_events(gn).subrange(0, part.len() as int));
                        lemma_plan_prefix(old(self).log_seq(), self.log@, part, stop_events(gn));
                    }
                    self.phase = NetPhase::Stopped;
                    return Err(e);
                },
            }
            proof {
                assert(self.log@ =~= old(self).log_seq() + stop_events(gn).take(i + 1));
            }
            i = i + 1;
        }
        proof {
            assert(stop_events(gn).take(n as int) =~= stop_events(gn));
        }
        self.phase = NetPhase::Stopped;
        Ok(())
    }

    /// Relays in-flight messages, consuming each from the queue's front
    /// and delivering it to its destination with its recorded source, up
    /// to the given budget of deliveries. Returns whether the network
    /// came to rest: either the queue drained, or an actor requested a
    /// shutdown and every actor received `Stop`.
    #[verifier::loop_isolation(false)]
    pub fn pump(&mut self, budget: u64) -> (r: Result<bool, Error>)
        requires
            old(self).phase_spec() is Running,
        ensures
            r == Ok::<bool, Error>(true) ==> final(self).phase_spec() is Stopped || (final(self).phase_spec() is Running && final(self).queue_seq().len() == 0),
            r == Ok::<bool, Error>(false) ==> final(self).phase_spec() is Running && final(
                self).queue_seq().len() > 0,
            r is Ok ==> final(self).n_actors() == old(self).n_actors(),
            // Envelopes are consumed from the front, in enqueue order:
            // the consumed list only grows at its back, and the queue
            // discipline ties it to the queue.
            r is Ok ==> old(self).processed_seq().is_prefix_of(final(self).processed_seq()),
            r is Ok ==> old(self).log_seq().is_prefix_of(final(self).log_seq()),
            r is Ok ==> (old(self).fifo_wf() ==> final(self).fifo_wf()),
            // The delivery history is exactly the message deliveries of
            // the consumed envelopes, in consumption order - followed by
            // the Stop broadcast when the run ended.
            r is Ok && final(self).phase_spec() is Running ==> final(self).log_seq() == old(
                self).log_seq() + delivered_events(
                final(self).processed_seq().skip(old(self).processed_seq().len() as int),
                old(self).n_actors(),
            ),
            r is Ok && final(self).phase_spec() is Stopped ==> final(self).log_seq() == old(
                self).log_seq() + delivered_events(
                final(self).processed_seq().skip(old(self).processed_seq().len() as int),
                old(self).n_actors(),
            ) + stop_events(old(self).n_actors()),
            r is Err ==> final(self).phase_spec() is Stopped && final(self).log_seq().len() > old(
                self).log_seq().len(),
    {
        let ghost gn = old(self).n_actors();
        let mut left: u64 = budget;
        while left > 0
            invariant
                self.phase_spec() is Running,
                self.actors@.len() == gn,
                old(self).processed_seq().is_prefix_of(self.processed@),
                self.log@ == old(self).log_seq() + delivered_events(
                    self.processed@.skip(old(self).processed_seq().len() as int),
                    gn,
                ),
                old(self).fifo_wf() ==> self.history@ == self.processed@ + self.queue@,
            decreases left,
        {
            if self.stop_requested {
                return match self.shutdown() {
                    Ok(()) => Ok(true),
                    Err(e) => Err(e),
                };
            }
            if self.queue.len() == 0 {
                return Ok(true);
            }
            let envelope = self.queue.remove(0);
            let ghost ge = envelope;
            let ghost consumed0 = self.processed@.skip(old(self).processed_seq().len() as int);
            proof {
                self.processed@ = self.processed@.push(ge);
                assert(old(self).processed_seq().is_prefix_of(self.processed@)) by {
                    assert(self.processed@.subrange(0, old(self).processed_seq().len() as int)
                        =~= old(self).processed_seq());
                }
                let consumed1 = self.processed@.skip(old(self).processed_seq().len() as int);
                assert(consumed1.drop_last() =~= consumed0);
                assert(consumed1.last() == ge);
                if old(self).fifo_wf() {
                    assert(self.history@ =~= self.processed@ + self.queue@);
                }
            }
            let Envelope { src, dest, msg } = envelope;
            match self.deliver_event(dest.index(), Protocol::Message(src, msg)) {
                Ok(()) => {},
                Err(e) => {
                    return Err(e);
                },
            }
            proof {
                let consumed1 = self.processed@.skip(old(self).processed_seq().len() as int);
                assert(self.log@ =~= old(self).log_seq() + delivered_events(consumed1, gn));
            }
            left = left - 1;
        }
        if self.stop_requested {
            return match self.shutdown() {
                Ok(()) => Ok(true),
                Err(e) => Err(e),
            };
        }
        if self.queue.len() == 0 {
            Ok(true)
        } else {
            Ok(false)
        }
    }

    /// Drives the network: starts it, which delivers the whole assembly
    /// plan, then relays messages until it comes to rest or the delivery
    /// budget runs out. Returns whether the run came to rest.
    pub fn run(&mut self, budget: u64) -> (r: Result<bool, Error>)
        requires
            old(self).phase_spec() is Assembling,
            old(self).edges_wf(),
        ensures
            r == Ok::<bool, Error>(true) ==> final(self).phase_spec() is Stopped || (final(
                self).phase_spec() is Running && final(self).queue_seq().len() == 0),
            r == Ok::<bool, Error>(false) ==> final(self).phase_spec() is Running && final(
                self).queue_seq().len() > 0,
            r is Ok ==> final(self).n_actors() == old(self).n_actors(),
            // The whole assembly plan was delivered: Init per actor, the
            // wiring of every edge, then Start per actor, in order; any
            // message relay and Stop broadcast follow it in the log.
            r is Ok ==> (old(self).log_seq() + assembly_events(
                old(self).n_actors(),
                old(self).edges_seq(),
            )).is_prefix_of(final(self).log_seq()),
            r is Err ==> final(self).phase_spec() is Stopped,
    {
        let ghost plan_head = old(self).log_seq() + assembly_events(
            old(self).n_actors(),
            old(self).edges_seq(),
        );
        match self.start() {
            Ok(()) => {},
            Err(e) => {
                return Err(e);
            },
        }
        let ghost started = self.log@;
        proof {
            assert(plan_head.is_prefix_of(started)) by {
                assert(started.subrange(0, plan_head.len() as int) =~= plan_head);
            }
        }
        if self.phase_is_running() {
            let r = self.pump(budget);
            proof {
                if r is Ok {
                    assert(started =~= self.log@.subrange(0, started.len() as int));
                    assert(plan_head.is_prefix_of(self.log@)) by {
                        assert(self.log@.subrange(0, plan_head.len() as int) =~= plan_head);
                    }
                }
            }
            r
        } else {
            Ok(true)
        }
    }

    /// Whether the network is relaying messages.
    pub fn phase_is_running(&self) -> (r: bool)
        ensures
            r == (self.phase_spec() is Running),
    {
        match self.phase {
            NetPhase::Running => true,
            _ => false,
        }
    }

    /// Stops the network from outside: every actor receives `Stop`, in
    /// actor order, and the run ends. This is how an operator interrupt
    /// ends a match.
    pub fn stop(&mut self) -> (r: Result<(), Error>)
        requires
            old(self).phase_spec() is Running,
        ensures
            final(self).phase_spec() is Stopped,
            r is Ok ==> final(self).n_actors() == old(self).n_actors(),
            r is Ok ==> final(self).log_seq() == old(self).log_seq() + stop_events(
                old(self).n_actors(),
            ),
            r is Err ==> old(self).log_seq().is_prefix_of(final(self).log_seq()) && final(
                self).log_seq().len() > old(self).log_seq().len() && final(self).log_seq().skip(
                old(self).log_seq().len() as int,
            ).is_prefix_of(stop_events(old(self).n_actors())),
    {
        self.shutdown()
    }

    /// Posts an event into an actor's own mailbox, as the outcome of a side
    /// effect the surrounding process performed for it.
    pub fn inject(&mut self, dest: Handle, msg: Message) -> (r: Result<(), Error>)
        requires
            old(self).phase_spec() is Running,
        ensures
            final(self).phase_spec() is Running,
            final(self).n_actors() == old(self).n_actors(),
            if dest.id_spec() < old(self).n_actors() {
                r == Ok::<(), Error>(()) && final(self).queue_seq() == old(self).queue_seq().push(Envelope { src: dest, dest, msg })
            } else {
                r == Err::<(), Error>(Error::InvalidHandle) && final(self).queue_seq() == old(self).queue_seq()
            },
    {
        if dest.index() < self.actors.len() {
            self.queue.push(Envelope { src: dest, dest, msg });
            Ok(())
        } else {
            Err(Error::InvalidHandle)
        }
    }

    /// Hands the collected side effects to the surrounding process and
    /// clears them.
    pub fn take_effects(&mut self) -> (r: Vec<(Handle, Effect)>)
        ensures
            r@ == old(self).effects_seq(),
            final(self).effects_seq() == Seq::<(Handle, Effect)>::empty(),
            final(self).n_actors() == old(self).n_actors(),
            final(self).phase_spec() == old(self).phase_spec(),
            final(self).queue_seq() == old(self).queue_seq(),
    {
        let mut taken: Vec<(Handle, Effect)> = Vec::new();
        core::mem::swap(&mut taken, &mut self.effects);
        taken
    }

    /// Reads the actor an in-range handle names; `None` past the end.
    pub fn actor(&self, h: Handle) -> (r: Option<&A>)
        ensures
            match r {
                Some(a) => h.id_spec() < self.n_actors() && *a == self.actor_at(h.id_spec() as int),
                None => h.id_spec() >= self.n_actors(),
            },
    {
        if h.index() < self.actors.len() {
            Some(&self.actors[h.index()])
        } else {
            None
        }
    }

    /// The actor at the given index.
    pub closed spec fn actor_at(&self, i: int) -> A {
        self.actors@[i]
    }
}

} // verus!
