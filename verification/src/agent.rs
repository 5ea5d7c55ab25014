//! The agent mediator: it sits between the orchestrator, one bot, and one
//! connection actor, forwarding each side's messages to the other and
//! answering the game-creation handshake.

use vstd::prelude::*;
use crate::data::{GamePorts, GameSettings, PlayerSetup};
use crate::errors::Error;
use crate::messages::{Message, Role};
use crate::substrate::{
    handle_of, role_targets, soma_step, Actor, Constraint, Effect, Handle, Outgoing, Protocol,
    Soma, Step,
};

verus! {

/// A quiet step that keeps the given agent state.
pub open spec fn agent_stays(r: Result<Step<AgentLobe>, Error>, next: AgentLobe) -> bool {
    r matches Ok(s) && s.actor == next && s.outbox@ =~= Seq::<Outgoing>::empty() && s.effects@
        =~= Seq::<Effect>::empty() && !s.stop
}

/// A step that keeps the agent state and forwards exactly one message.
pub open spec fn agent_forwards(
    r: Result<Step<AgentLobe>, Error>,
    next: AgentLobe,
    dest: Handle,
    msg: Message,
) -> bool {
    r matches Ok(s) && s.actor == next && s.outbox@ =~= seq![Outgoing { dest, msg }] && s.effects@
        =~= Seq::<Effect>::empty() && !s.stop
}

/// The required peer of the given role among the soma's inbound ports, if
/// it is unique.
pub open spec fn unique_input(soma: Soma, role: Role) -> Option<Handle> {
    let ts = role_targets(soma.inputs@, role);
    if ts.len() == 1 {
        Some(ts[0])
    } else {
        None
    }
}

/// The required peer of the given role among the soma's outbound ports,
/// if it is unique.
pub open spec fn unique_output(soma: Soma, role: Role) -> Option<Handle> {
    let ts = role_targets(soma.outputs@, role);
    if ts.len() == 1 {
        Some(ts[0])
    } else {
        None
    }
}

/// A forwarding rule: the message must come from `from`'s unique peer and
/// goes to `to`'s unique peer; a missing peer is a wiring error, a wrong
/// source a provenance error.
pub open spec fn forward_rule(
    pre: AgentLobe,
    src: Handle,
    from_outputs: bool,
    from: Role,
    to_outputs: bool,
    to: Role,
    msg: Message,
    r: Result<Step<AgentLobe>, Error>,
) -> bool {
    let expected = if from_outputs {
        unique_output(pre.soma, from)
    } else {
        unique_input(pre.soma, from)
    };
    match expected {
        None => r == Err::<Step<AgentLobe>, Error>(Error::MissingPeer { role: from }),
        Some(h) => if src != h {
            r == Err::<Step<AgentLobe>, Error>(Error::UnexpectedSource)
        } else {
            let target = if to_outputs {
                unique_output(pre.soma, to)
            } else {
                unique_input(pre.soma, to)
            };
            match target {
                None => r == Err::<Step<AgentLobe>, Error>(Error::MissingPeer { role: to }),
                Some(d) => agent_forwards(r, pre, d, msg),
            }
        },
    }
}

/// The agent mediator actor.
#[derive(Debug)]
pub struct AgentLobe {
    /// The actor's mailbox helper.
    pub soma: Soma,
}

impl AgentLobe {
    /// A fresh mediator: it is controlled by the orchestrator and an
    /// instance provider, and it drives one bot and one connection actor.
    pub fn new() -> (r: Result<AgentLobe, Error>)
        ensures
            r matches Ok(a) && a.soma.id is None && a.soma.inputs@ =~= Seq::<
                (Role, Handle),
            >::empty() && a.soma.outputs@ =~= Seq::<(Role, Handle)>::empty()
                && a.soma.input_constraints@ =~= seq![
                Constraint::RequireOne(Role::Controller),
                Constraint::RequireOne(Role::InstanceProvider),
            ] && a.soma.output_constraints@ =~= seq![
                Constraint::RequireOne(Role::Client),
                Constraint::RequireOne(Role::Agent),
                Constraint::RequireOne(Role::InstanceProvider),
            ],
    {
        let mut input_constraints: Vec<Constraint> = Vec::new();
        input_constraints.push(Constraint::RequireOne(Role::Controller));
        input_constraints.push(Constraint::RequireOne(Role::InstanceProvider));
        let mut output_constraints: Vec<Constraint> = Vec::new();
        output_constraints.push(Constraint::RequireOne(Role::Client));
        output_constraints.push(Constraint::RequireOne(Role::Agent));
        output_constraints.push(Constraint::RequireOne(Role::InstanceProvider));
        Ok(AgentLobe { soma: Soma::new(input_constraints, output_constraints) })
    }

    /// Handles one lifecycle event; messages that concern no handshake of
    /// this mediator pass by quietly.
    pub fn step_event(self, event: Protocol) -> (r: Result<Step<AgentLobe>, Error>)
        ensures
            match event {
                Protocol::Init(_) | Protocol::AddInput(..) | Protocol::AddOutput(..) => (r matches
                    Ok(s) && soma_step(self.soma, s.actor.soma, event)
                    && s.outbox@ =~= Seq::<Outgoing>::empty() && s.effects@ =~= Seq::<
                    Effect,
                >::empty() && !s.stop),
                Protocol::Start => if self.soma.wired() {
                    agent_stays(r, self)
                } else {
                    r matches Err(e) && e matches Error::ArityViolation { .. }
                },
                Protocol::Stop => agent_stays(r, self),
                Protocol::Message(src, msg) => match msg {
                    Message::Ready => forward_rule(
                        self,
                        src,
                        true,
                        Role::Client,
                        false,
                        Role::Controller,
                        Message::Ready,
                        r,
                    ),
                    Message::RequestPlayerSetup(settings) => forward_rule(
                        self,
                        src,
                        false,
                        Role::Controller,
                        true,
                        Role::Agent,
                        Message::RequestPlayerSetup(settings),
                        r,
                    ),
                    Message::PlayerSetup(setup) => forward_rule(
                        self,
                        src,
                        true,
                        Role::Agent,
                        false,
                        Role::Controller,
                        Message::PlayerSetup(setup),
                        r,
                    ),
                    Message::ProvideInstance(instance, url) => forward_rule(
                        self,
                        src,
                        false,
                        Role::InstanceProvider,
                        true,
                        Role::InstanceProvider,
                        Message::ProvideInstance(instance, url),
                        r,
                    ),
                    Message::CreateGame(..) => forward_rule(
                        self,
                        src,
                        false,
                        Role::Controller,
                        false,
                        Role::Controller,
                        Message::GameCreated,
                        r,
                    ),
                    Message::GameReady(..) => match unique_input(self.soma, Role::Controller) {
                        None => r == Err::<Step<AgentLobe>, Error>(
                            Error::MissingPeer { role: Role::Controller },
                        ),
                        Some(h) => if src != h {
                            r == Err::<Step<AgentLobe>, Error>(Error::UnexpectedSource)
                        } else {
                            agent_stays(r, self)
                        },
                    },
                    _ => agent_stays(r, self),
                },
            },
    {
        let mut this = self;
        let passed = match this.soma.update(event) {
            Ok(p) => p,
            Err(e) => {
                return Err(e);
            },
        };
        match passed {
            None => Ok(Step::advance(this)),
            Some(Protocol::Start) => Ok(Step::advance(this)),
            Some(Protocol::Stop) => Ok(Step::advance(this)),
            Some(Protocol::Message(src, Message::Ready)) => this.on_connected(src),
            Some(Protocol::Message(src, Message::RequestPlayerSetup(settings))) => this
                .on_req_player_setup(src, settings),
            Some(Protocol::Message(src, Message::PlayerSetup(setup))) => this.on_player_setup(
                src,
                setup,
            ),
            Some(Protocol::Message(src, Message::ProvideInstance(instance, url))) => this
                .provide_instance(src, instance, url),
            Some(Protocol::Message(src, Message::CreateGame(settings, setups))) => this
                .create_game(src, settings, setups),
            Some(Protocol::Message(src, Message::GameReady(setup, ports))) => this.on_game_ready(
                src,
                setup,
                ports,
            ),
            Some(Protocol::Message(..)) => Ok(Step::advance(this)),
            Some(_) => Ok(Step::advance(this)),
        }
    }

    /// Takes the connection actor's `Ready` and tells the orchestrator.
    pub fn on_connected(self, src: Handle) -> (r: Result<Step<AgentLobe>, Error>)
        ensures
            forward_rule(
                self,
                src,
                true,
                Role::Client,
                false,
                Role::Controller,
                Message::Ready,
                r,
            ),
    {
        self.forward_between(src, true, Role::Client, false, Role::Controller, Message::Ready)
    }

    /// Forwards the orchestrator's setup request to the bot.
    pub fn on_req_player_setup(self, src: Handle, settings: GameSettings) -> (r: Result<
        Step<AgentLobe>,
        Error,
    >)
        ensures
            forward_rule(
                self,
                src,
                false,
                Role::Controller,
                true,
                Role::Agent,
                Message::RequestPlayerSetup(settings),
                r,
            ),
    {
        self.forward_between(
            src,
            false,
            Role::Controller,
            true,
            Role::Agent,
            Message::RequestPlayerSetup(settings),
        )
    }

    /// Forwards the bot's setup reply to the orchestrator.
    pub fn on_player_setup(self, src: Handle, setup: PlayerSetup) -> (r: Result<
        Step<AgentLobe>,
        Error,
    >)
        ensures
            forward_rule(
                self,
                src,
                true,
                Role::Agent,
                false,
                Role::Controller,
                Message::PlayerSetup(setup),
                r,
            ),
    {
        self.forward_between(
            src,
            true,
            Role::Agent,
            false,
            Role::Controller,
            Message::PlayerSetup(setup),
        )
    }

    /// Hands the assigned instance on to the connection actor.
    pub fn provide_instance(self, src: Handle, instance: u64, url: String) -> (r: Result<
        Step<AgentLobe>,
        Error,
    >)
        ensures
            forward_rule(
                self,
                src,
                false,
                Role::InstanceProvider,
                true,
                Role::InstanceProvider,
                Message::ProvideInstance(instance, url),
                r,
            ),
    {
        self.forward_between(
            src,
            false,
            Role::InstanceProvider,
            true,
            Role::InstanceProvider,
            Message::ProvideInstance(instance, url),
        )
    }

    /// Acknowledges the orchestrator's game creation. The wire exchange
    /// that creates the game on the instance is driven by the surrounding
    /// process; the handshake completes here.
    pub fn create_game(self, src: Handle, _settings: GameSettings, _setups: Vec<PlayerSetup>) -> (r:
        Result<Step<AgentLobe>, Error>)
        ensures
            forward_rule(
                self,
                src,
                false,
                Role::Controller,
                false,
                Role::Controller,
                Message::GameCreated,
                r,
            ),
    {
        self.forward_between(
            src,
            false,
            Role::Controller,
            false,
            Role::Controller,
            Message::GameCreated,
        )
    }

    /// Takes the join notice; the join itself is the bot's affair.
    pub fn on_game_ready(self, src: Handle, _setup: PlayerSetup, _ports: Option<GamePorts>) -> (r:
        Result<Step<AgentLobe>, Error>)
        ensures
            match unique_input(self.soma, Role::Controller) {
                None => r == Err::<Step<AgentLobe>, Error>(
                    Error::MissingPeer { role: Role::Controller },
                ),
                Some(h) => if src != h {
                    r == Err::<Step<AgentLobe>, Error>(Error::UnexpectedSource)
                } else {
                    agent_stays(r, self)
                },
            },
    {
        let controller = match self.soma.req_input(Role::Controller) {
            Ok(h) => h,
            Err(e) => {
                return Err(e);
            },
        };
        if src != controller {
            return Err(Error::UnexpectedSource);
        }
        Ok(Step::advance(self))
    }

    /// Validates the source against one unique peer and forwards one
    /// message to another.
    fn forward_between(
        self,
        src: Handle,
        from_outputs: bool,
        from: Role,
        to_outputs: bool,
        to: Role,
        msg: Message,
    ) -> (r: Result<Step<AgentLobe>, Error>)
        ensures
            forward_rule(self, src, from_outputs, from, to_outputs, to, msg, r),
    {
        let expected = if from_outputs {
            self.soma.req_output(from)
        } else {
            self.soma.req_input(from)
        };
        let expected = match expected {
            Ok(h) => h,
            Err(e) => {
                return Err(e);
            },
        };
        if src != expected {
            return Err(Error::UnexpectedSource);
        }
        let target = if to_outputs {
            self.soma.req_output(to)
        } else {
            self.soma.req_input(to)
        };
        let target = match target {
            Ok(h) => h,
            Err(e) => {
                return Err(e);
            },
        };
        let mut outbox: Vec<Outgoing> = Vec::new();
        outbox.push(Outgoing { dest: target, msg });
        Ok(Step { actor: self, outbox, effects: Vec::new(), stop: false })
    }
}

impl Actor for AgentLobe {
    fn update(self, event: Protocol) -> Result<Step<AgentLobe>, Error> {
        self.step_event(event)
    }
}

} // verus!

use crate::client::ClientLobe;
use crate::substrate::Network;

verus! {

/// One member of a standalone agent network: the mediator, the bot, and
/// the connection actor.
#[derive(Debug)]
pub enum AgentNode<L: Actor> {
    /// The mediating agent.
    Agent(AgentLobe),
    /// The bot.
    Player(L),
    /// The connection actor.
    Client(ClientLobe),
}

impl<L: Actor> Actor for AgentNode<L> {
    fn update(self, event: Protocol) -> Result<Step<AgentNode<L>>, Error> {
        match self {
            AgentNode::Agent(a) => match a.update(event) {
                Ok(s) => Ok(
                    Step {
                        actor: AgentNode::Agent(s.actor),
                        outbox: s.outbox,
                        effects: s.effects,
                        stop: s.stop,
                    },
                ),
                Err(e) => Err(e),
            },
            AgentNode::Player(a) => match a.update(event) {
                Ok(s) => Ok(
                    Step {
                        actor: AgentNode::Player(s.actor),
                        outbox: s.outbox,
                        effects: s.effects,
                        stop: s.stop,
                    },
                ),
                Err(e) => Err(e),
            },
            AgentNode::Client(a) => match a.update(event) {
                Ok(s) => Ok(
                    Step {
                        actor: AgentNode::Client(s.actor),
                        outbox: s.outbox,
                        effects: s.effects,
                        stop: s.stop,
                    },
                ),
                Err(e) => Err(e),
            },
        }
    }
}

/// The wiring of a standalone agent network: the mediator (actor 0)
/// drives its connection actor (2) under the InstanceProvider and Client
/// roles and its bot (1) under the Agent role.
pub open spec fn agent_wiring() -> Seq<(Handle, Handle, Role)> {
    seq![
        (handle_of(0), handle_of(2), Role::InstanceProvider),
        (handle_of(0), handle_of(2), Role::Client),
        (handle_of(0), handle_of(1), Role::Agent),
    ]
}

impl AgentLobe {
    /// Assembles the network around one bot: the mediator in control,
    /// the bot under the Agent role, and a connection actor under the
    /// Client and InstanceProvider roles, wired exactly as `agent_wiring`
    /// lays out. The mediator's own Controller and InstanceProvider
    /// ports stay open for the composer that embeds this network in a
    /// match; assembly itself cannot fail.
    pub fn cortex<L: Actor>(lobe: L) -> (r: Result<Network<AgentNode<L>>, Error>)
        ensures
            r matches Ok(net) && {
                &&& net.phase_spec() is Assembling
                &&& net.n_actors() == 3
                &&& net.edges_seq() =~= agent_wiring()
                &&& net.edges_wf()
                &&& net.fifo_wf()
                &&& net.queue_seq().len() == 0
                &&& net.effects_seq().len() == 0
                &&& net.log_seq().len() == 0
                &&& (net.actor_at(0) matches AgentNode::Agent(_))
                &&& net.actor_at(1) == AgentNode::Player::<L>(lobe)
                &&& (net.actor_at(2) matches AgentNode::Client(_))
            },
    {
        let agent = match AgentLobe::new() {
            Ok(a) => a,
            Err(e) => {
                return Err(e);
            },
        };
        let client = match ClientLobe::new() {
            Ok(c) => c,
            Err(e) => {
                return Err(e);
            },
        };
        let mut net = Network::new(AgentNode::Agent(agent));
        let agent_h = net.get_main_handle();
        let player_h = net.add_actor(AgentNode::Player(lobe));
        let client_h = net.add_actor(AgentNode::Client(client));
        match net.connect(agent_h, client_h, Role::InstanceProvider) {
            Ok(()) => {},
            Err(e) => {
                return Err(e);
            },
        }
        match net.connect(agent_h, client_h, Role::Client) {
            Ok(()) => {},
            Err(e) => {
                return Err(e);
            },
        }
        match net.connect(agent_h, player_h, Role::Agent) {
            Ok(()) => {},
            Err(e) => {
                return Err(e);
            },
        }
        proof {
            assert(net.edges_seq() =~= agent_wiring());
        }
        Ok(net)
    }
}

} // verus!
