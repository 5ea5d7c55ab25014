//! The melee orchestrator: it pits two bots against each other.
//!
//! It negotiates player setups with the two bot actors, acquires game
//! instances and port assignments from the launcher (differently for
//! player-vs-player and player-vs-computer), runs one game to completion,
//! and loops for a repeating suite. Any message outside its expected phase
//! is a fatal orchestration error.

use vstd::prelude::*;
use crate::data::{game_ports_equiv, GamePorts, GameSettings, PlayerSetup, PortSet};
use crate::errors::Error;
use crate::messages::{Message, Role};
use crate::substrate::{
    handle_of, role_targets, soma_step, Actor, Constraint, Effect, Handle, Outgoing, Protocol,
    Soma, Step,
};

verus! {

/// Suite of games to play when pitting bots against each other.
#[derive(Debug)]
pub enum MeleeSuite {
    /// Play one game with the given settings.
    OneAndDone(GameSettings),
    /// Repeat this game indefinitely.
    EndlessRepeat(GameSettings),
}

/// The settings of one game of a suite.
pub open spec fn suite_game(suite: MeleeSuite) -> GameSettings {
    match suite {
        MeleeSuite::OneAndDone(game) => game,
        MeleeSuite::EndlessRepeat(game) => game,
    }
}

/// What is left of a suite once its next game is taken: a repeating suite
/// is re-created whole, a single game leaves nothing.
pub open spec fn suite_rest(suite: MeleeSuite) -> Option<MeleeSuite> {
    match suite {
        MeleeSuite::OneAndDone(_) => None,
        MeleeSuite::EndlessRepeat(game) => Some(MeleeSuite::EndlessRepeat(game)),
    }
}

/// The orchestrator state machine.
#[derive(Debug)]
pub enum MeleeCell {
    /// Waits for the network to assemble.
    Init(Init),
    /// Fetches player setups to decide how many instances are needed.
    Setup(Setup),
    /// Gathers instances and game ports, then moves to a play phase.
    Launch(Launch),
    /// Coordinates two instances for player versus player.
    PlayerVsPlayer(PlayerVsPlayer),
    /// Coordinates one instance for a player versus the built-in AI.
    PlayerVsComputer(PlayerVsComputer),
    /// The suite is exhausted; the network is shutting down.
    Completed(Completed),
}

impl MeleeCell {
    /// A fresh orchestrator: it requires exactly one Launcher peer and
    /// takes any number of Controller and InstanceProvider peers; the
    /// setup phase then demands exactly two of each.
    pub fn new(suite: MeleeSuite) -> (r: Result<MeleeCell, Error>)
        ensures
            r matches Ok(c) && c matches MeleeCell::Init(st) && st.suite == suite && st.soma.id
                is None && st.soma.inputs@ =~= Seq::<(Role, Handle)>::empty() && st.soma.outputs@
                =~= Seq::<(Role, Handle)>::empty() && st.soma.input_constraints@ =~= Seq::<
                Constraint,
            >::empty() && st.soma.output_constraints@ =~= seq![
                Constraint::RequireOne(Role::Launcher),
                Constraint::Variadic(Role::Controller),
                Constraint::Variadic(Role::InstanceProvider),
            ],
    {
        let mut output_constraints: Vec<Constraint> = Vec::new();
        output_constraints.push(Constraint::RequireOne(Role::Launcher));
        output_constraints.push(Constraint::Variadic(Role::Controller));
        output_constraints.push(Constraint::Variadic(Role::InstanceProvider));
        Ok(
            MeleeCell::Init(
                Init { soma: Soma::new(Vec::new(), output_constraints), suite },
            ),
        )
    }

    /// Dispatches one lifecycle event to the current phase.
    pub fn step_event(self, event: Protocol) -> (r: Result<Step<MeleeCell>, Error>)
        ensures
            match self {
                MeleeCell::Init(st) => init_update_spec(st, event, r),
                MeleeCell::Setup(st) => setup_update_spec(st, event, r),
                MeleeCell::Launch(st) => launch_update_spec(st, event, r),
                MeleeCell::PlayerVsPlayer(st) => pvp_update_spec(st, event, r),
                MeleeCell::PlayerVsComputer(st) => pvc_update_spec(st, event, r),
                MeleeCell::Completed(st) => completed_update_spec(st, event, r),
            },
    {
        match self {
            MeleeCell::Init(state) => state.update(event),
            MeleeCell::Setup(state) => state.update(event),
            MeleeCell::Launch(state) => state.update(event),
            MeleeCell::PlayerVsPlayer(state) => state.update(event),
            MeleeCell::PlayerVsComputer(state) => state.update(event),
            MeleeCell::Completed(state) => state.update(event),
        }
    }
}

impl Actor for MeleeCell {
    fn update(self, event: Protocol) -> Result<Step<MeleeCell>, Error> {
        self.step_event(event)
    }
}

/// What one lifecycle event does while the orchestrator waits for `Start`.
pub open spec fn init_update_spec(pre: Init, event: Protocol, r: Result<Step<MeleeCell>, Error>) -> bool {
            match event {
                Protocol::Init(_) | Protocol::AddInput(..) | Protocol::AddOutput(..) => (r matches
                    Ok(s) && s.actor matches MeleeCell::Init(st) && soma_step(
                    pre.soma,
                    st.soma,
                    event,
                ) && st.suite == pre.suite && s.outbox@ =~= Seq::<Outgoing>::empty() && s.effects@
                    =~= Seq::<Effect>::empty() && !s.stop),
                Protocol::Start => if pre.soma.wired() {
                    setup_spec(pre.soma, pre.suite, r)
                } else {
                    r matches Err(e) && e matches Error::ArityViolation { .. }
                },
                Protocol::Stop => (r matches Ok(s) && s.actor == MeleeCell::Init(pre) && s.outbox@
                    =~= Seq::<Outgoing>::empty() && s.effects@ =~= Seq::<Effect>::empty()
                    && !s.stop),
                Protocol::Message(..) => r == Err::<Step<MeleeCell>, Error>(
                    Error::UnexpectedMessage,
                ),
            }
}

/// What one lifecycle event does while setups are gathered.
pub open spec fn setup_update_spec(pre: Setup, event: Protocol, r: Result<Step<MeleeCell>, Error>) -> bool {
            match event {
                Protocol::Init(_) | Protocol::AddInput(..) | Protocol::AddOutput(..) => (r matches
                    Ok(s) && s.actor matches MeleeCell::Setup(st) && soma_step(
                    pre.soma,
                    st.soma,
                    event,
                ) && st.suite == pre.suite && st.agents == pre.agents && st.clients
                    == pre.clients && st.game == pre.game && st.players == pre.players
                    && s.outbox@ =~= Seq::<Outgoing>::empty() && s.effects@ =~= Seq::<
                    Effect,
                >::empty() && !s.stop),
                Protocol::Start => if pre.soma.wired() {
                    r == Err::<Step<MeleeCell>, Error>(Error::UnexpectedMessage)
                } else {
                    r matches Err(e) && e matches Error::ArityViolation { .. }
                },
                Protocol::Stop => (r matches Ok(s) && s.actor == MeleeCell::Setup(pre) && s.outbox@
                    =~= Seq::<Outgoing>::empty() && s.effects@ =~= Seq::<Effect>::empty()
                    && !s.stop),
                Protocol::Message(src, msg) => match msg {
                    Message::PlayerSetup(setup) => on_player_setup_spec(pre, src, setup, r),
                    _ => r == Err::<Step<MeleeCell>, Error>(Error::UnexpectedMessage),
                },
            }
}

/// What one lifecycle event does while instances and ports are gathered.
pub open spec fn launch_update_spec(pre: Launch, event: Protocol, r: Result<Step<MeleeCell>, Error>) -> bool {
            match event {
                Protocol::Init(_) | Protocol::AddInput(..) | Protocol::AddOutput(..) => (r matches
                    Ok(s) && s.actor matches MeleeCell::Launch(st) && soma_step(
                    pre.soma,
                    st.soma,
                    event,
                ) && st.suite == pre.suite && st.launcher == pre.launcher && st.agents
                    == pre.agents && st.clients == pre.clients && st.game == pre.game
                    && st.players == pre.players && st.instances@ == pre.instances@ && st.ports@
                    == pre.ports@ && st.is_pvp == pre.is_pvp && st.instances_requested
                    == pre.instances_requested && s.outbox@ =~= Seq::<Outgoing>::empty()
                    && s.effects@ =~= Seq::<Effect>::empty() && !s.stop),
                Protocol::Start => if pre.soma.wired() {
                    r == Err::<Step<MeleeCell>, Error>(Error::UnexpectedMessage)
                } else {
                    r matches Err(e) && e matches Error::ArityViolation { .. }
                },
                Protocol::Stop => (r matches Ok(s) && s.actor == MeleeCell::Launch(pre)
                    && s.outbox@ =~= Seq::<Outgoing>::empty() && s.effects@ =~= Seq::<
                    Effect,
                >::empty() && !s.stop),
                Protocol::Message(src, msg) => match msg {
                    Message::InstancePool(pool) => if src != pre.launcher {
                        r == Err::<Step<MeleeCell>, Error>(Error::UnexpectedSource)
                    } else {
                        pool_progress_spec(
                            pre.soma,
                            pre.suite,
                            pre.launcher,
                            pre.agents,
                            pre.clients,
                            pre.game,
                            pre.players,
                            pool@,
                            pre.ports@,
                            pre.is_pvp,
                            pre.instances_requested,
                            r,
                        )
                    },
                    Message::PortsPool(pool) => if src != pre.launcher {
                        r == Err::<Step<MeleeCell>, Error>(Error::UnexpectedSource)
                    } else {
                        pool_progress_spec(
                            pre.soma,
                            pre.suite,
                            pre.launcher,
                            pre.agents,
                            pre.clients,
                            pre.game,
                            pre.players,
                            pre.instances@,
                            pool@,
                            pre.is_pvp,
                            pre.instances_requested,
                            r,
                        )
                    },
                    _ => r == Err::<Step<MeleeCell>, Error>(Error::UnexpectedMessage),
                },
            }
}

/// What one lifecycle event does during player versus player.
pub open spec fn pvp_update_spec(pre: PlayerVsPlayer, event: Protocol, r: Result<Step<MeleeCell>, Error>) -> bool {
            match event {
                Protocol::Init(_) | Protocol::AddInput(..) | Protocol::AddOutput(..) => (r matches
                    Ok(s) && s.actor matches MeleeCell::PlayerVsPlayer(st) && soma_step(
                    pre.soma,
                    st.soma,
                    event,
                ) && st.suite == pre.suite && st.agents == pre.agents && st.game == pre.game
                    && game_ports_equiv(st.ports, pre.ports) && st.players == pre.players
                    && st.ready == pre.ready && st.ended == pre.ended && s.outbox@ =~= Seq::<
                    Outgoing,
                >::empty() && s.effects@ =~= Seq::<Effect>::empty() && !s.stop),
                Protocol::Start => if pre.soma.wired() {
                    r == Err::<Step<MeleeCell>, Error>(Error::UnexpectedMessage)
                } else {
                    r matches Err(e) && e matches Error::ArityViolation { .. }
                },
                Protocol::Stop => (r matches Ok(s) && s.actor == MeleeCell::PlayerVsPlayer(pre)
                    && s.outbox@ =~= Seq::<Outgoing>::empty() && s.effects@ =~= Seq::<
                    Effect,
                >::empty() && !s.stop),
                Protocol::Message(src, msg) => match msg {
                    Message::Ready => pvp_ready_spec(pre, src, r),
                    Message::GameCreated => pvp_created_spec(pre, src, r),
                    Message::GameEnded => pvp_ended_spec(pre, src, r),
                    _ => r == Err::<Step<MeleeCell>, Error>(Error::UnexpectedMessage),
                },
            }
}

/// What one lifecycle event does during player versus computer.
pub open spec fn pvc_update_spec(pre: PlayerVsComputer, event: Protocol, r: Result<Step<MeleeCell>, Error>) -> bool {
            match event {
                Protocol::Init(_) | Protocol::AddInput(..) | Protocol::AddOutput(..) => (r matches
                    Ok(s) && s.actor matches MeleeCell::PlayerVsComputer(st) && soma_step(
                    pre.soma,
                    st.soma,
                    event,
                ) && st.suite == pre.suite && st.game == pre.game && st.player_setup
                    == pre.player_setup && st.computer_setup == pre.computer_setup && st.player
                    == pre.player && s.outbox@ =~= Seq::<Outgoing>::empty() && s.effects@
                    =~= Seq::<Effect>::empty() && !s.stop),
                Protocol::Start => if pre.soma.wired() {
                    r == Err::<Step<MeleeCell>, Error>(Error::UnexpectedMessage)
                } else {
                    r matches Err(e) && e matches Error::ArityViolation { .. }
                },
                Protocol::Stop => (r matches Ok(s) && s.actor == MeleeCell::PlayerVsComputer(pre)
                    && s.outbox@ =~= Seq::<Outgoing>::empty() && s.effects@ =~= Seq::<
                    Effect,
                >::empty() && !s.stop),
                Protocol::Message(src, msg) => match msg {
                    Message::Ready => pvc_ready_spec(pre, src, r),
                    Message::GameCreated => pvc_created_spec(pre, src, r),
                    Message::GameEnded => pvc_ended_spec(pre, src, r),
                    _ => r == Err::<Step<MeleeCell>, Error>(Error::UnexpectedMessage),
                },
            }
}

/// What one lifecycle event does after completion.
pub open spec fn completed_update_spec(pre: Completed, event: Protocol, r: Result<Step<MeleeCell>, Error>) -> bool {
            match event {
                Protocol::Init(_) | Protocol::AddInput(..) | Protocol::AddOutput(..) => (r matches
                    Ok(s) && s.actor matches MeleeCell::Completed(st) && soma_step(
                    pre.soma,
                    st.soma,
                    event,
                ) && s.outbox@ =~= Seq::<Outgoing>::empty() && s.effects@ =~= Seq::<
                    Effect,
                >::empty() && !s.stop),
                Protocol::Start => if pre.soma.wired() {
                    r == Err::<Step<MeleeCell>, Error>(Error::UnexpectedMessage)
                } else {
                    r matches Err(e) && e matches Error::ArityViolation { .. }
                },
                Protocol::Stop => (r matches Ok(s) && s.actor == MeleeCell::Completed(pre)
                    && s.outbox@ =~= Seq::<Outgoing>::empty() && s.effects@ =~= Seq::<
                    Effect,
                >::empty() && !s.stop),
                Protocol::Message(..) => r == Err::<Step<MeleeCell>, Error>(
                    Error::UnexpectedMessage,
                ),
            }
}

/// What entering the setup phase does: with exactly two Controller peers
/// and two InstanceProvider peers wired, both bots are asked for their
/// player setup; any other peer count is a fatal construction error.
pub open spec fn setup_spec(soma: Soma, suite: MeleeSuite, r: Result<Step<MeleeCell>, Error>) -> bool {
    let cls = role_targets(soma.outputs@, Role::InstanceProvider);
    let ags = role_targets(soma.outputs@, Role::Controller);
    if cls.len() != 2 {
        r matches Err(e) && e == (Error::WrongPeerCount {
            role: Role::InstanceProvider,
            expected: 2,
            found: cls.len() as usize,
        })
    } else if ags.len() != 2 {
        r matches Err(e) && e == (Error::WrongPeerCount {
            role: Role::Controller,
            expected: 2,
            found: ags.len() as usize,
        })
    } else {
        let game = suite_game(suite);
        r matches Ok(s) && s.actor matches MeleeCell::Setup(st) && st.soma == soma && st.suite
            == suite_rest(suite) && st.agents == (ags[0], ags[1]) && st.clients == (cls[0], cls[1])
            && st.game == game && st.players == (None::<PlayerSetup>, None::<PlayerSetup>)
            && s.outbox@ =~= seq![
            Outgoing { dest: ags[0], msg: Message::RequestPlayerSetup(game) },
            Outgoing { dest: ags[1], msg: Message::RequestPlayerSetup(game) },
        ] && s.effects@ =~= Seq::<Effect>::empty() && !s.stop
    }
}

/// Phase before the network starts.
#[derive(Debug)]
pub struct Init {
    /// The actor's mailbox helper.
    pub soma: Soma,
    /// The suite of games to play.
    pub suite: MeleeSuite,
}

impl Init {
    /// Handles one lifecycle event while waiting for `Start`.
    pub fn update(self, event: Protocol) -> (r: Result<Step<MeleeCell>, Error>)
        ensures
            init_update_spec(self, event, r),
    {
        let mut this = self;
        let passed = match this.soma.update(event) {
            Ok(p) => p,
            Err(e) => {
                return Err(e);
            },
        };
        match passed {
            None => Ok(Step::advance(MeleeCell::Init(this))),
            Some(Protocol::Start) => Setup::setup(this.soma, this.suite),
            Some(Protocol::Stop) => Ok(Step::advance(MeleeCell::Init(this))),
            Some(_) => Err(Error::UnexpectedMessage),
        }
    }
}

/// Phase that gathers the two bots' player setups.
#[derive(Debug)]
pub struct Setup {
    /// The actor's mailbox helper.
    pub soma: Soma,
    /// What is left of the suite after the current game.
    pub suite: Option<MeleeSuite>,
    /// The two Controller peers.
    pub agents: (Handle, Handle),
    /// The two InstanceProvider peers.
    pub clients: (Handle, Handle),
    /// Settings of the current game.
    pub game: GameSettings,
    /// The setups received so far.
    pub players: (Option<PlayerSetup>, Option<PlayerSetup>),
}

impl Setup {
    /// Enters the setup phase: checks the peer counts and broadcasts the
    /// player-setup request to both bots.
    pub fn setup(soma: Soma, suite: MeleeSuite) -> (r: Result<Step<MeleeCell>, Error>)
        ensures
            setup_spec(soma, suite, r),
    {
        let clients = soma.var_output(Role::InstanceProvider);
        let agents = soma.var_output(Role::Controller);
        if clients.len() != 2 {
            return Err(
                Error::WrongPeerCount {
                    role: Role::InstanceProvider,
                    expected: 2,
                    found: clients.len(),
                },
            );
        }
        if agents.len() != 2 {
            return Err(
                Error::WrongPeerCount { role: Role::Controller, expected: 2, found: agents.len() },
            );
        }
        let (game, rest) = match suite {
            MeleeSuite::OneAndDone(game) => (game, None),
            MeleeSuite::EndlessRepeat(game) => {
                let again = MeleeSuite::EndlessRepeat(game.clone());
                (game, Some(again))
            },
        };
        let mut outbox: Vec<Outgoing> = Vec::new();
        outbox.push(
            Outgoing { dest: agents[0], msg: Message::RequestPlayerSetup(game.clone()) },
        );
        outbox.push(
            Outgoing { dest: agents[1], msg: Message::RequestPlayerSetup(game.clone()) },
        );
        Ok(
            Step {
                actor: MeleeCell::Setup(
                    Setup {
                        soma,
                        suite: rest,
                        agents: (agents[0], agents[1]),
                        clients: (clients[0], clients[1]),
                        game,
                        players: (None, None),
                    },
                ),
                outbox,
                effects: Vec::new(),
                stop: false,
            },
        )
    }

    /// Handles one lifecycle event while gathering setups.
    pub fn update(self, event: Protocol) -> (r: Result<Step<MeleeCell>, Error>)
        ensures
            setup_update_spec(self, event, r),
    {
        let mut this = self;
        let passed = match this.soma.update(event) {
            Ok(p) => p,
            Err(e) => {
                return Err(e);
            },
        };
        match passed {
            None => Ok(Step::advance(MeleeCell::Setup(this))),
            Some(Protocol::Stop) => Ok(Step::advance(MeleeCell::Setup(this))),
            Some(Protocol::Message(src, Message::PlayerSetup(setup))) => this.on_player_setup(
                src,
                setup,
            ),
            Some(_) => Err(Error::UnexpectedMessage),
        }
    }

    /// Records one bot's setup; once both are known the launch phase
    /// begins.
    pub fn on_player_setup(self, src: Handle, setup: PlayerSetup) -> (r: Result<
        Step<MeleeCell>,
        Error,
    >)
        ensures
            on_player_setup_spec(self, src, setup, r),
    {
        let Setup { soma, suite, agents, clients, game, players } = self;
        let updated: (Option<PlayerSetup>, Option<PlayerSetup>) = if src == agents.0 {
            (Some(setup), players.1)
        } else if src == agents.1 {
            (players.0, Some(setup))
        } else {
            return Err(Error::UnexpectedSource);
        };
        match updated {
            (Some(setup1), Some(setup2)) => Launch::launch(
                soma,
                suite,
                agents,
                clients,
                (setup1, setup2),
                game,
            ),
            _ => Ok(
                Step::advance(
                    MeleeCell::Setup(
                        Setup { soma, suite, agents, clients, game, players: updated },
                    ),
                ),
            ),
        }
    }
}

/// What one bot's setup reply does: it is recorded under the sending
/// peer; the reply that completes the pair starts the launch phase.
pub open spec fn on_player_setup_spec(
    pre: Setup,
    src: Handle,
    setup: PlayerSetup,
    r: Result<Step<MeleeCell>, Error>,
) -> bool {
    if src == pre.agents.0 {
        let updated = (Some(setup), pre.players.1);
        match updated.1 {
            Some(setup2) => launch_spec(
                pre.soma,
                pre.suite,
                pre.agents,
                pre.clients,
                (setup, setup2),
                pre.game,
                r,
            ),
            None => setup_stays(pre, updated, r),
        }
    } else if src == pre.agents.1 {
        let updated = (pre.players.0, Some(setup));
        match updated.0 {
            Some(setup1) => launch_spec(
                pre.soma,
                pre.suite,
                pre.agents,
                pre.clients,
                (setup1, setup),
                pre.game,
                r,
            ),
            None => setup_stays(pre, updated, r),
        }
    } else {
        r == Err::<Step<MeleeCell>, Error>(Error::UnexpectedSource)
    }
}

/// A quiet step that only records the updated pair of setups.
pub open spec fn setup_stays(
    pre: Setup,
    updated: (Option<PlayerSetup>, Option<PlayerSetup>),
    r: Result<Step<MeleeCell>, Error>,
) -> bool {
    r matches Ok(s) && s.actor matches MeleeCell::Setup(st) && st.soma == pre.soma && st.suite
        == pre.suite && st.agents == pre.agents && st.clients == pre.clients && st.game == pre.game
        && st.players == updated && s.outbox@ =~= Seq::<Outgoing>::empty() && s.effects@ =~= Seq::<
        Effect,
    >::empty() && !s.stop
}

/// How the two setups classify the match: two bot players make it
/// player-vs-player, one bot and one computer make it player-vs-computer,
/// anything else is an invalid configuration.
pub open spec fn classify_players(p0: PlayerSetup, p1: PlayerSetup) -> Option<bool> {
    if p0 is Player && p1 is Computer {
        Some(false)
    } else if p0 is Computer && p1 is Player {
        Some(false)
    } else if p0 is Player && p1 is Player {
        Some(true)
    } else {
        None
    }
}

/// What entering the launch phase does: the match is classified, and both
/// pools are requested from the launcher peer.
pub open spec fn launch_spec(
    soma: Soma,
    suite: Option<MeleeSuite>,
    agents: (Handle, Handle),
    clients: (Handle, Handle),
    players: (PlayerSetup, PlayerSetup),
    game: GameSettings,
    r: Result<Step<MeleeCell>, Error>,
) -> bool {
    match classify_players(players.0, players.1) {
        None => r == Err::<Step<MeleeCell>, Error>(Error::InvalidPlayerSetups),
        Some(is_pvp) => {
            let lp = role_targets(soma.outputs@, Role::Launcher);
            if lp.len() != 1 {
                r == Err::<Step<MeleeCell>, Error>(Error::MissingPeer { role: Role::Launcher })
            } else {
                r matches Ok(s) && s.actor matches MeleeCell::Launch(st) && st.soma == soma
                    && st.suite == suite && st.launcher == lp[0] && st.agents == agents
                    && st.clients == clients && st.game == game && st.players == players
                    && st.instances@ =~= Seq::<(u64, String, PortSet)>::empty() && st.ports@
                    =~= Seq::<GamePorts>::empty() && st.is_pvp == is_pvp && st.instances_requested
                    == 0 && s.outbox@ =~= seq![
                    Outgoing { dest: lp[0], msg: Message::GetInstancePool },
                    Outgoing { dest: lp[0], msg: Message::GetPortsPool },
                ] && s.effects@ =~= Seq::<Effect>::empty() && !s.stop
            }
        },
    }
}

/// Phase that gathers instances and game ports until the match can start.
#[derive(Debug)]
pub struct Launch {
    /// The actor's mailbox helper.
    pub soma: Soma,
    /// What is left of the suite after the current game.
    pub suite: Option<MeleeSuite>,
    /// The Launcher peer.
    pub launcher: Handle,
    /// The two Controller peers.
    pub agents: (Handle, Handle),
    /// The two InstanceProvider peers.
    pub clients: (Handle, Handle),
    /// Settings of the current game.
    pub game: GameSettings,
    /// The two player setups.
    pub players: (PlayerSetup, PlayerSetup),
    /// The instance pool last reported by the launcher.
    pub instances: Vec<(u64, String, PortSet)>,
    /// The ports pool last reported by the launcher.
    pub ports: Vec<GamePorts>,
    /// Whether the match is player versus player.
    pub is_pvp: bool,
    /// How many instance launches were already requested.
    pub instances_requested: u32,
}

impl Launch {
    /// Enters the launch phase.
    pub fn launch(
        soma: Soma,
        suite: Option<MeleeSuite>,
        agents: (Handle, Handle),
        clients: (Handle, Handle),
        players: (PlayerSetup, PlayerSetup),
        game: GameSettings,
    ) -> (r: Result<Step<MeleeCell>, Error>)
        ensures
            launch_spec(soma, suite, agents, clients, players, game, r),
    {
        let is_pvp = if players.0.is_player() && players.1.is_computer() {
            false
        } else if players.0.is_computer() && players.1.is_player() {
            false
        } else if players.0.is_player() && players.1.is_player() {
            true
        } else {
            return Err(Error::InvalidPlayerSetups);
        };
        let launcher = match soma.req_output(Role::Launcher) {
            Ok(h) => h,
            Err(e) => {
                return Err(e);
            },
        };
        let mut outbox: Vec<Outgoing> = Vec::new();
        outbox.push(Outgoing { dest: launcher, msg: Message::GetInstancePool });
        outbox.push(Outgoing { dest: launcher, msg: Message::GetPortsPool });
        Ok(
            Step {
                actor: MeleeCell::Launch(
                    Launch {
                        soma,
                        suite,
                        launcher,
                        agents,
                        clients,
                        game,
                        players,
                        instances: Vec::new(),
                        ports: Vec::new(),
                        is_pvp,
                        instances_requested: 0,
                    },
                ),
                outbox,
                effects: Vec::new(),
                stop: false,
            },
        )
    }
}

} // verus!

verus! {

/// How many instance launches the shortfall calls for: the match needs
/// two instances for player-vs-player and one for player-vs-computer,
/// and exactly what the pool and the earlier requests do not yet cover
/// is requested - never more, and never what was already requested.
pub open spec fn launch_count(is_pvp: bool, n_instances: nat, requested: u32) -> u32 {
    let needed: int = if is_pvp {
        2
    } else {
        1
    };
    if n_instances + requested >= needed {
        0
    } else {
        (needed - n_instances - requested) as u32
    }
}

/// The launch commands the shortfall sends to the launcher peer.
pub open spec fn launch_msgs(launcher: Handle, k: u32) -> Seq<Outgoing> {
    Seq::new(k as nat, |i: int| Outgoing { dest: launcher, msg: Message::LaunchInstance })
}

/// What a pool update does once the pools are recorded: the shortfall is
/// launched, and if the recorded pools satisfy the match the instances
/// are bound and the play phase begins; otherwise the actor keeps
/// waiting in the launch phase.
pub open spec fn pool_progress_spec(
    soma: Soma,
    suite: Option<MeleeSuite>,
    launcher: Handle,
    agents: (Handle, Handle),
    clients: (Handle, Handle),
    game: GameSettings,
    players: (PlayerSetup, PlayerSetup),
    instances: Seq<(u64, String, PortSet)>,
    ports_pool: Seq<GamePorts>,
    is_pvp: bool,
    requested: u32,
    r: Result<Step<MeleeCell>, Error>,
) -> bool {
    let k = launch_count(is_pvp, instances.len(), requested);
    let sent = launch_msgs(launcher, k);
    if is_pvp && instances.len() >= 2 && ports_pool.len() >= 1 {
        r matches Ok(s) && s.actor matches MeleeCell::PlayerVsPlayer(p) && {
            &&& p.soma == soma
            &&& p.suite == suite
            &&& p.agents == agents
            &&& p.game == game
            &&& p.players == players
            &&& p.ready == (false, false)
            &&& p.ended == (false, false)
            &&& p.ports.shared_port == ports_pool[0].shared_port
            &&& p.ports.server_ports == ports_pool[0].server_ports
            &&& p.ports.client_ports@ =~= seq![instances[0].2, instances[1].2]
            &&& s.outbox@ =~= sent + seq![
                Outgoing {
                    dest: clients.0,
                    msg: Message::ProvideInstance(instances[0].0, instances[0].1),
                },
                Outgoing {
                    dest: clients.1,
                    msg: Message::ProvideInstance(instances[1].0, instances[1].1),
                },
            ]
            &&& s.effects@ =~= Seq::<Effect>::empty()
            &&& !s.stop
        }
    } else if !is_pvp && instances.len() >= 1 {
        if !(players.0 is Player) && !(players.1 is Player) {
            r == Err::<Step<MeleeCell>, Error>(Error::InvalidPlayerSetups)
        } else {
            let player_first = players.0 is Player;
            let player = if player_first {
                agents.0
            } else {
                agents.1
            };
            let player_setup = if player_first {
                players.0
            } else {
                players.1
            };
            let computer_setup = if player_first {
                players.1
            } else {
                players.0
            };
            r matches Ok(s) && s.actor matches MeleeCell::PlayerVsComputer(p) && {
                &&& p.soma == soma
                &&& p.suite == suite
                &&& p.game == game
                &&& p.player == player
                &&& p.player_setup == player_setup
                &&& p.computer_setup == computer_setup
                &&& s.outbox@ =~= sent + seq![
                    Outgoing {
                        dest: player,
                        msg: Message::ProvideInstance(instances[0].0, instances[0].1),
                    },
                ]
                &&& s.effects@ =~= Seq::<Effect>::empty()
                &&& !s.stop
            }
        }
    } else {
        r matches Ok(s) && s.actor matches MeleeCell::Launch(st) && {
            &&& st.soma == soma
            &&& st.suite == suite
            &&& st.launcher == launcher
            &&& st.agents == agents
            &&& st.clients == clients
            &&& st.game == game
            &&& st.players == players
            &&& st.instances@ =~= instances
            &&& st.ports@ =~= ports_pool
            &&& st.is_pvp == is_pvp
            &&& st.instances_requested == requested + k
            &&& s.outbox@ =~= sent
            &&& s.effects@ =~= Seq::<Effect>::empty()
            &&& !s.stop
        }
    }
}

impl Launch {
    /// Handles one lifecycle event while gathering instances and ports.
    pub fn update(self, event: Protocol) -> (r: Result<Step<MeleeCell>, Error>)
        ensures
            launch_update_spec(self, event, r),
    {
        let mut this = self;
        let passed = match this.soma.update(event) {
            Ok(p) => p,
            Err(e) => {
                return Err(e);
            },
        };
        match passed {
            None => Ok(Step::advance(MeleeCell::Launch(this))),
            Some(Protocol::Stop) => Ok(Step::advance(MeleeCell::Launch(this))),
            Some(Protocol::Message(src, Message::InstancePool(pool))) => this.on_instance_pool(
                src,
                pool,
            ),
            Some(Protocol::Message(src, Message::PortsPool(pool))) => this.on_ports_pool(src, pool),
            Some(_) => Err(Error::UnexpectedMessage),
        }
    }

    /// Records the launcher's instance pool and re-evaluates readiness.
    pub fn on_instance_pool(self, src: Handle, pool: Vec<(u64, String, PortSet)>) -> (r: Result<
        Step<MeleeCell>,
        Error,
    >)
        ensures
            if src != self.launcher {
                r == Err::<Step<MeleeCell>, Error>(Error::UnexpectedSource)
            } else {
                pool_progress_spec(
                    self.soma,
                    self.suite,
                    self.launcher,
                    self.agents,
                    self.clients,
                    self.game,
                    self.players,
                    pool@,
                    self.ports@,
                    self.is_pvp,
                    self.instances_requested,
                    r,
                )
            },
    {
        if src != self.launcher {
            return Err(Error::UnexpectedSource);
        }
        let mut this = self;
        this.instances = pool;
        this.progress()
    }

    /// Records the launcher's ports pool and re-evaluates readiness.
    pub fn on_ports_pool(self, src: Handle, pool: Vec<GamePorts>) -> (r: Result<
        Step<MeleeCell>,
        Error,
    >)
        ensures
            if src != self.launcher {
                r == Err::<Step<MeleeCell>, Error>(Error::UnexpectedSource)
            } else {
                pool_progress_spec(
                    self.soma,
                    self.suite,
                    self.launcher,
                    self.agents,
                    self.clients,
                    self.game,
                    self.players,
                    self.instances@,
                    pool@,
                    self.is_pvp,
                    self.instances_requested,
                    r,
                )
            },
    {
        if src != self.launcher {
            return Err(Error::UnexpectedSource);
        }
        let mut this = self;
        this.ports = pool;
        this.progress()
    }

    /// Launches the shortfall and, once the recorded pools satisfy the
    /// match, binds instances and starts the play phase.
    fn progress(self) -> (r: Result<Step<MeleeCell>, Error>)
        ensures
            pool_progress_spec(
                self.soma,
                self.suite,
                self.launcher,
                self.agents,
                self.clients,
                self.game,
                self.players,
                self.instances@,
                self.ports@,
                self.is_pvp,
                self.instances_requested,
                r,
            ),
    {
        let Launch {
            soma,
            suite,
            launcher,
            agents,
            clients,
            game,
            players,
            instances,
            ports,
            is_pvp,
            mut instances_requested,
        } = self;
        let mut outbox: Vec<Outgoing> = Vec::new();
        let ghost k = launch_count(is_pvp, instances@.len(), instances_requested);
        let needed: u32 = if is_pvp {
            2
        } else {
            1
        };
        let pooled: u32 = if instances.len() >= 2 {
            2
        } else {
            instances.len() as u32
        };
        if pooled < needed && instances_requested < needed - pooled {
            let missing = needed - pooled - instances_requested;
            let mut j: u32 = 0;
            while j < missing
                invariant
                    j <= missing,
                    outbox@ =~= launch_msgs(launcher, j),
                decreases missing - j,
            {
                outbox.push(Outgoing { dest: launcher, msg: Message::LaunchInstance });
                j = j + 1;
                proof {
                    assert(outbox@ =~= launch_msgs(launcher, j));
                }
            }
            instances_requested = instances_requested + missing;
        }
        proof {
            assert(outbox@ =~= launch_msgs(launcher, k));
        }
        if is_pvp {
            if instances.len() >= 2 && ports.len() >= 1 {
                let id1 = instances[0].0;
                let url1 = instances[0].1.clone();
                let ports1 = instances[0].2;
                let id2 = instances[1].0;
                let url2 = instances[1].1.clone();
                let ports2 = instances[1].2;
                let mut client_ports: Vec<PortSet> = Vec::new();
                client_ports.push(ports1);
                client_ports.push(ports2);
                let bound = GamePorts {
                    shared_port: ports[0].shared_port,
                    server_ports: ports[0].server_ports,
                    client_ports,
                };
                outbox.push(
                    Outgoing { dest: clients.0, msg: Message::ProvideInstance(id1, url1) },
                );
                outbox.push(
                    Outgoing { dest: clients.1, msg: Message::ProvideInstance(id2, url2) },
                );
                return Ok(
                    Step {
                        actor: MeleeCell::PlayerVsPlayer(
                            PlayerVsPlayer {
                                soma,
                                suite,
                                agents,
                                game,
                                ports: bound,
                                players,
                                ready: (false, false),
                                ended: (false, false),
                            },
                        ),
                        outbox,
                        effects: Vec::new(),
                        stop: false,
                    },
                );
            }
        } else if instances.len() >= 1 {
            let player = if players.0.is_player() {
                agents.0
            } else if players.1.is_player() {
                agents.1
            } else {
                return Err(Error::InvalidPlayerSetups);
            };
            let (player_setup, computer_setup) = if players.0.is_player() {
                (players.0, players.1)
            } else {
                (players.1, players.0)
            };
            let id = instances[0].0;
            let url = instances[0].1.clone();
            outbox.push(Outgoing { dest: player, msg: Message::ProvideInstance(id, url) });
            return Ok(
                Step {
                    actor: MeleeCell::PlayerVsComputer(
                        PlayerVsComputer {
                            soma,
                            suite,
                            game,
                            player_setup,
                            computer_setup,
                            player,
                        },
                    ),
                    outbox,
                    effects: Vec::new(),
                    stop: false,
                },
            );
        }
        Ok(
            Step {
                actor: MeleeCell::Launch(
                    Launch {
                        soma,
                        suite,
                        launcher,
                        agents,
                        clients,
                        game,
                        players,
                        instances,
                        ports,
                        is_pvp,
                        instances_requested,
                    },
                ),
                outbox,
                effects: Vec::new(),
                stop: false,
            },
        )
    }
}

} // verus!

verus! {

/// What one bot's `Ready` does: it is recorded under the sending peer;
/// the one that completes the pair makes the first bot create the game
/// with both setups.
pub open spec fn pvp_ready_spec(
    pre: PlayerVsPlayer,
    src: Handle,
    r: Result<Step<MeleeCell>, Error>,
) -> bool {
    if src != pre.agents.0 && src != pre.agents.1 {
        r == Err::<Step<MeleeCell>, Error>(Error::UnexpectedSource)
    } else {
        let now_ready = if src == pre.agents.0 {
            (true, pre.ready.1)
        } else {
            (pre.ready.0, true)
        };
        r matches Ok(s) && s.actor matches MeleeCell::PlayerVsPlayer(p) && {
            &&& p.soma == pre.soma
            &&& p.suite == pre.suite
            &&& p.agents == pre.agents
            &&& p.game == pre.game
            &&& game_ports_equiv(p.ports, pre.ports)
            &&& p.players == pre.players
            &&& p.ready == now_ready
            &&& p.ended == pre.ended
            &&& if now_ready == (true, true) {
                s.outbox@.len() == 1 && s.outbox@[0].dest == pre.agents.0 && (
                s.outbox@[0].msg matches Message::CreateGame(g, ps) && g == pre.game && ps@ =~= seq![
                    pre.players.0,
                    pre.players.1,
                ])
            } else {
                s.outbox@ =~= Seq::<Outgoing>::empty()
            }
            &&& s.effects@ =~= Seq::<Effect>::empty()
            &&& !s.stop
        }
    }
}

/// What the game-created confirmation does: both bots hear `GameReady`
/// with their own setup and the shared port assignment.
pub open spec fn pvp_created_spec(
    pre: PlayerVsPlayer,
    src: Handle,
    r: Result<Step<MeleeCell>, Error>,
) -> bool {
    if src != pre.agents.0 {
        r == Err::<Step<MeleeCell>, Error>(Error::UnexpectedSource)
    } else {
        r matches Ok(s) && s.actor matches MeleeCell::PlayerVsPlayer(p) && {
            &&& p.soma == pre.soma
            &&& p.suite == pre.suite
            &&& p.agents == pre.agents
            &&& p.game == pre.game
            &&& game_ports_equiv(p.ports, pre.ports)
            &&& p.players == pre.players
            &&& p.ready == pre.ready
            &&& p.ended == pre.ended
            &&& s.outbox@.len() == 2
            &&& s.outbox@[0].dest == pre.agents.0
            &&& (s.outbox@[0].msg matches Message::GameReady(setup, some_ports) && setup
                == pre.players.0 && (some_ports matches Some(gp) && game_ports_equiv(
                gp,
                pre.ports,
            )))
            &&& s.outbox@[1].dest == pre.agents.1
            &&& (s.outbox@[1].msg matches Message::GameReady(setup, some_ports) && setup
                == pre.players.1 && (some_ports matches Some(gp) && game_ports_equiv(
                gp,
                pre.ports,
            )))
            &&& s.effects@ =~= Seq::<Effect>::empty()
            &&& !s.stop
        }
    }
}

/// What one bot's `GameEnded` does: it is recorded; once both games
/// ended, a remaining suite loops back to setup with the same peers, and
/// an exhausted suite completes the match and stops the network.
pub open spec fn pvp_ended_spec(
    pre: PlayerVsPlayer,
    src: Handle,
    r: Result<Step<MeleeCell>, Error>,
) -> bool {
    if src != pre.agents.0 && src != pre.agents.1 {
        r == Err::<Step<MeleeCell>, Error>(Error::UnexpectedSource)
    } else {
        let now_ended = if src == pre.agents.0 {
            (true, pre.ended.1)
        } else {
            (pre.ended.0, true)
        };
        if now_ended == (true, true) {
            match pre.suite {
                None => completed_spec(pre.soma, r),
                Some(rest) => setup_spec(pre.soma, rest, r),
            }
        } else {
            r matches Ok(s) && s.actor matches MeleeCell::PlayerVsPlayer(p) && {
                &&& p.soma == pre.soma
                &&& p.suite == pre.suite
                &&& p.agents == pre.agents
                &&& p.game == pre.game
                &&& game_ports_equiv(p.ports, pre.ports)
                &&& p.players == pre.players
                &&& p.ready == pre.ready
                &&& p.ended == now_ended
                &&& s.outbox@ =~= Seq::<Outgoing>::empty()
                &&& s.effects@ =~= Seq::<Effect>::empty()
                &&& !s.stop
            }
        }
    }
}

/// What completing the suite does: the whole network is asked to stop.
pub open spec fn completed_spec(soma: Soma, r: Result<Step<MeleeCell>, Error>) -> bool {
    r matches Ok(s) && s.actor == MeleeCell::Completed(Completed { soma }) && s.outbox@ =~= Seq::<
        Outgoing,
    >::empty() && s.effects@ =~= Seq::<Effect>::empty() && s.stop == true
}

/// Phase that coordinates two instances for player versus player.
#[derive(Debug)]
pub struct PlayerVsPlayer {
    /// The actor's mailbox helper.
    pub soma: Soma,
    /// What is left of the suite after the current game.
    pub suite: Option<MeleeSuite>,
    /// The two Controller peers.
    pub agents: (Handle, Handle),
    /// Settings of the current game.
    pub game: GameSettings,
    /// The match's bound port assignment.
    pub ports: GamePorts,
    /// The two player setups.
    pub players: (PlayerSetup, PlayerSetup),
    /// Which bots signalled readiness.
    pub ready: (bool, bool),
    /// Which bots signalled the end of the game.
    pub ended: (bool, bool),
}

impl PlayerVsPlayer {
    /// Handles one lifecycle event of the player-vs-player phase.
    pub fn update(self, event: Protocol) -> (r: Result<Step<MeleeCell>, Error>)
        ensures
            pvp_update_spec(self, event, r),
    {
        let mut this = self;
        let passed = match this.soma.update(event) {
            Ok(p) => p,
            Err(e) => {
                return Err(e);
            },
        };
        match passed {
            None => Ok(Step::advance(MeleeCell::PlayerVsPlayer(this))),
            Some(Protocol::Stop) => Ok(Step::advance(MeleeCell::PlayerVsPlayer(this))),
            Some(Protocol::Message(src, Message::Ready)) => this.on_agent_ready(src),
            Some(Protocol::Message(src, Message::GameCreated)) => this.on_game_created(src),
            Some(Protocol::Message(src, Message::GameEnded)) => this.on_game_ended(src),
            Some(_) => Err(Error::UnexpectedMessage),
        }
    }

    /// Records one bot's readiness; the second one triggers game creation.
    pub fn on_agent_ready(self, src: Handle) -> (r: Result<Step<MeleeCell>, Error>)
        ensures
            pvp_ready_spec(self, src, r),
    {
        let mut this = self;
        if src == this.agents.0 {
            this.ready = (true, this.ready.1);
        } else if src == this.agents.1 {
            this.ready = (this.ready.0, true);
        } else {
            return Err(Error::UnexpectedSource);
        }
        let mut outbox: Vec<Outgoing> = Vec::new();
        if this.ready.0 && this.ready.1 {
            let mut setups: Vec<PlayerSetup> = Vec::new();
            setups.push(this.players.0);
            setups.push(this.players.1);
            outbox.push(
                Outgoing {
                    dest: this.agents.0,
                    msg: Message::CreateGame(this.game.clone(), setups),
                },
            );
        }
        Ok(
            Step {
                actor: MeleeCell::PlayerVsPlayer(this),
                outbox,
                effects: Vec::new(),
                stop: false,
            },
        )
    }

    /// Takes the game-created confirmation and tells both bots to join.
    pub fn on_game_created(self, src: Handle) -> (r: Result<Step<MeleeCell>, Error>)
        ensures
            pvp_created_spec(self, src, r),
    {
        if src != self.agents.0 {
            return Err(Error::UnexpectedSource);
        }
        let mut outbox: Vec<Outgoing> = Vec::new();
        outbox.push(
            Outgoing {
                dest: self.agents.0,
                msg: Message::GameReady(self.players.0, Some(self.ports.clone())),
            },
        );
        outbox.push(
            Outgoing {
                dest: self.agents.1,
                msg: Message::GameReady(self.players.1, Some(self.ports.clone())),
            },
        );
        Ok(
            Step {
                actor: MeleeCell::PlayerVsPlayer(self),
                outbox,
                effects: Vec::new(),
                stop: false,
            },
        )
    }

    /// Records one bot's game end; the second one either loops the suite
    /// or completes the match.
    pub fn on_game_ended(self, src: Handle) -> (r: Result<Step<MeleeCell>, Error>)
        ensures
            pvp_ended_spec(self, src, r),
    {
        let mut this = self;
        if src == this.agents.0 {
            this.ended = (true, this.ended.1);
        } else if src == this.agents.1 {
            this.ended = (this.ended.0, true);
        } else {
            return Err(Error::UnexpectedSource);
        }
        if this.ended.0 && this.ended.1 {
            match this.suite {
                None => Completed::complete(this.soma),
                Some(rest) => Setup::setup(this.soma, rest),
            }
        } else {
            Ok(Step::advance(MeleeCell::PlayerVsPlayer(this)))
        }
    }
}

/// What the single bot's `Ready` does in a player-vs-computer match: the
/// bot is asked to create the game with both setups.
pub open spec fn pvc_ready_spec(
    pre: PlayerVsComputer,
    src: Handle,
    r: Result<Step<MeleeCell>, Error>,
) -> bool {
    if src != pre.player {
        r == Err::<Step<MeleeCell>, Error>(Error::UnexpectedSource)
    } else {
        r matches Ok(s) && s.actor == MeleeCell::PlayerVsComputer(pre) && s.outbox@.len() == 1
            && s.outbox@[0].dest == pre.player && (s.outbox@[0].msg matches Message::CreateGame(
            g,
            ps,
        ) && g == pre.game && ps@ =~= seq![pre.player_setup, pre.computer_setup]) && s.effects@
            =~= Seq::<Effect>::empty() && !s.stop
    }
}

/// What the game-created confirmation does: the bot hears `GameReady`
/// with its setup and no port assignment.
pub open spec fn pvc_created_spec(
    pre: PlayerVsComputer,
    src: Handle,
    r: Result<Step<MeleeCell>, Error>,
) -> bool {
    if src != pre.player {
        r == Err::<Step<MeleeCell>, Error>(Error::UnexpectedSource)
    } else {
        r matches Ok(s) && s.actor == MeleeCell::PlayerVsComputer(pre) && s.outbox@.len() == 1
            && s.outbox@[0].dest == pre.player && (s.outbox@[0].msg matches Message::GameReady(
            setup,
            some_ports,
        ) && setup == pre.player_setup && some_ports is None) && s.effects@ =~= Seq::<
            Effect,
        >::empty() && !s.stop
    }
}

/// What the bot's `GameEnded` does: a remaining suite loops back to
/// setup, an exhausted one completes the match.
pub open spec fn pvc_ended_spec(
    pre: PlayerVsComputer,
    src: Handle,
    r: Result<Step<MeleeCell>, Error>,
) -> bool {
    if src != pre.player {
        r == Err::<Step<MeleeCell>, Error>(Error::UnexpectedSource)
    } else {
        match pre.suite {
            None => completed_spec(pre.soma, r),
            Some(rest) => setup_spec(pre.soma, rest, r),
        }
    }
}

/// Phase that coordinates one instance for a player against the built-in
/// AI; the computer-controlled side has no actor.
#[derive(Debug)]
pub struct PlayerVsComputer {
    /// The actor's mailbox helper.
    pub soma: Soma,
    /// What is left of the suite after the current game.
    pub suite: Option<MeleeSuite>,
    /// Settings of the current game.
    pub game: GameSettings,
    /// The bot participant's setup.
    pub player_setup: PlayerSetup,
    /// The built-in AI participant's setup.
    pub computer_setup: PlayerSetup,
    /// The bot's Controller peer.
    pub player: Handle,
}

impl PlayerVsComputer {
    /// Handles one lifecycle event of the player-vs-computer phase.
    pub fn update(self, event: Protocol) -> (r: Result<Step<MeleeCell>, Error>)
        ensures
            pvc_update_spec(self, event, r),
    {
        let mut this = self;
        let passed = match this.soma.update(event) {
            Ok(p) => p,
            Err(e) => {
                return Err(e);
            },
        };
        match passed {
            None => Ok(Step::advance(MeleeCell::PlayerVsComputer(this))),
            Some(Protocol::Stop) => Ok(Step::advance(MeleeCell::PlayerVsComputer(this))),
            Some(Protocol::Message(src, Message::Ready)) => this.on_agent_ready(src),
            Some(Protocol::Message(src, Message::GameCreated)) => this.on_game_created(src),
            Some(Protocol::Message(src, Message::GameEnded)) => this.on_game_ended(src),
            Some(_) => Err(Error::UnexpectedMessage),
        }
    }

    /// Takes the bot's readiness and asks it to create the game.
    pub fn on_agent_ready(self, src: Handle) -> (r: Result<Step<MeleeCell>, Error>)
        ensures
            pvc_ready_spec(self, src, r),
    {
        if src != self.player {
            return Err(Error::UnexpectedSource);
        }
        let mut setups: Vec<PlayerSetup> = Vec::new();
        setups.push(self.player_setup);
        setups.push(self.computer_setup);
        let mut outbox: Vec<Outgoing> = Vec::new();
        outbox.push(
            Outgoing { dest: self.player, msg: Message::CreateGame(self.game.clone(), setups) },
        );
        Ok(
            Step {
                actor: MeleeCell::PlayerVsComputer(self),
                outbox,
                effects: Vec::new(),
                stop: false,
            },
        )
    }

    /// Takes the game-created confirmation and tells the bot to join.
    pub fn on_game_created(self, src: Handle) -> (r: Result<Step<MeleeCell>, Error>)
        ensures
            pvc_created_spec(self, src, r),
    {
        if src != self.player {
            return Err(Error::UnexpectedSource);
        }
        let mut outbox: Vec<Outgoing> = Vec::new();
        outbox.push(
            Outgoing { dest: self.player, msg: Message::GameReady(self.player_setup, None) },
        );
        Ok(
            Step {
                actor: MeleeCell::PlayerVsComputer(self),
                outbox,
                effects: Vec::new(),
                stop: false,
            },
        )
    }

    /// Takes the bot's game end and loops or completes the suite.
    pub fn on_game_ended(self, src: Handle) -> (r: Result<Step<MeleeCell>, Error>)
        ensures
            pvc_ended_spec(self, src, r),
    {
        if src != self.player {
            return Err(Error::UnexpectedSource);
        }
        match self.suite {
            None => Completed::complete(self.soma),
            Some(rest) => Setup::setup(self.soma, rest),
        }
    }
}

/// Terminal phase: the suite is exhausted.
#[derive(Debug)]
pub struct Completed {
    /// The actor's mailbox helper.
    pub soma: Soma,
}

impl Completed {
    /// Enters the terminal phase and asks the network to stop.
    pub fn complete(soma: Soma) -> (r: Result<Step<MeleeCell>, Error>)
        ensures
            completed_spec(soma, r),
    {
        Ok(
            Step {
                actor: MeleeCell::Completed(Completed { soma }),
                outbox: Vec::new(),
                effects: Vec::new(),
                stop: true,
            },
        )
    }

    /// Handles one lifecycle event after completion.
    pub fn update(self, event: Protocol) -> (r: Result<Step<MeleeCell>, Error>)
        ensures
            completed_update_spec(self, event, r),
    {
        let mut this = self;
        let passed = match this.soma.update(event) {
            Ok(p) => p,
            Err(e) => {
                return Err(e);
            },
        };
        match passed {
            None => Ok(Step::advance(MeleeCell::Completed(this))),
            Some(Protocol::Stop) => Ok(Step::advance(MeleeCell::Completed(this))),
            Some(_) => Err(Error::UnexpectedMessage),
        }
    }
}

} // verus!

use crate::agent::AgentLobe;
use crate::client::ClientLobe;
use crate::launcher::{InstallScan, Launcher, LauncherCell, LauncherSettings};
use crate::substrate::Network;

verus! {

/// Settings for a melee match: the launcher configuration, the two bot
/// actors, and the suite of games to play.
pub struct MeleeSettings<L1: Actor, L2: Actor> {
    /// The settings of the launcher.
    pub launcher: LauncherSettings,
    /// The two bot actors.
    pub players: (L1, L2),
    /// The suite of games to play.
    pub suite: MeleeSuite,
}

/// One member of a melee network: the orchestrator, the launcher, the two
/// bots, and a mediating agent and connection actor for each bot.
#[derive(Debug)]
pub enum MeleeNode<L1: Actor, L2: Actor> {
    /// The orchestrator.
    Melee(MeleeCell),
    /// The launcher.
    Launcher(LauncherCell),
    /// A mediating agent.
    Agent(AgentLobe),
    /// A connection actor.
    Client(ClientLobe),
    /// The first bot.
    Player1(L1),
    /// The second bot.
    Player2(L2),
}

impl<L1: Actor, L2: Actor> Actor for MeleeNode<L1, L2> {
    fn update(self, event: Protocol) -> Result<Step<MeleeNode<L1, L2>>, Error> {
        match self {
            MeleeNode::Melee(a) => match a.update(event) {
                Ok(s) => Ok(
                    Step {
                        actor: MeleeNode::Melee(s.actor),
                        outbox: s.outbox,
                        effects: s.effects,
                        stop: s.stop,
                    },
                ),
                Err(e) => Err(e),
            },
            MeleeNode::Launcher(a) => match a.update(event) {
                Ok(s) => Ok(
                    Step {
                        actor: MeleeNode::Launcher(s.actor),
                        outbox: s.outbox,
                        effects: s.effects,
                        stop: s.stop,
                    },
                ),
                Err(e) => Err(e),
            },
            MeleeNode::Agent(a) => match a.update(event) {
                Ok(s) => Ok(
                    Step {
                        actor: MeleeNode::Agent(s.actor),
                        outbox: s.outbox,
                        effects: s.effects,
                        stop: s.stop,
                    },
                ),
                Err(e) => Err(e),
            },
            MeleeNode::Client(a) => match a.update(event) {
                Ok(s) => Ok(
                    Step {
                        actor: MeleeNode::Client(s.actor),
                        outbox: s.outbox,
                        effects: s.effects,
                        stop: s.stop,
                    },
                ),
                Err(e) => Err(e),
            },
            MeleeNode::Player1(a) => match a.update(event) {
                Ok(s) => Ok(
                    Step {
                        actor: MeleeNode::Player1(s.actor),
                        outbox: s.outbox,
                        effects: s.effects,
                        stop: s.stop,
                    },
                ),
                Err(e) => Err(e),
            },
            MeleeNode::Player2(a) => match a.update(event) {
                Ok(s) => Ok(
                    Step {
                        actor: MeleeNode::Player2(s.actor),
                        outbox: s.outbox,
                        effects: s.effects,
                        stop: s.stop,
                    },
                ),
                Err(e) => Err(e),
            },
        }
    }
}

/// The wiring of a melee network: the orchestrator (actor 0) commands
/// the launcher (1) under the Launcher role and each mediating agent (2
/// and 3) under both the Controller and the InstanceProvider role; each
/// agent drives its connection actor (4 and 5) under the
/// InstanceProvider and Client roles and its bot (6 and 7) under the
/// Agent role.
pub open spec fn melee_wiring() -> Seq<(Handle, Handle, Role)> {
    seq![
        (handle_of(0), handle_of(1), Role::Launcher),
        (handle_of(0), handle_of(2), Role::Controller),
        (handle_of(0), handle_of(3), Role::Controller),
        (handle_of(0), handle_of(2), Role::InstanceProvider),
        (handle_of(0), handle_of(3), Role::InstanceProvider),
        (handle_of(2), handle_of(4), Role::InstanceProvider),
        (handle_of(2), handle_of(4), Role::Client),
        (handle_of(2), handle_of(6), Role::Agent),
        (handle_of(3), handle_of(5), Role::InstanceProvider),
        (handle_of(3), handle_of(5), Role::Client),
        (handle_of(3), handle_of(7), Role::Agent),
    ]
}

impl MeleeCell {
    /// Assembles the melee network: the orchestrator in control, the
    /// launcher, and, for each bot, a mediating agent and a connection
    /// actor, wired exactly as `melee_wiring` lays out. The network is
    /// returned assembled and unstarted; assembly fails exactly when no
    /// game executable is found among the scanned candidates.
    pub fn organelle<L1: Actor, L2: Actor>(
        settings: MeleeSettings<L1, L2>,
        scan: InstallScan,
    ) -> (r: Result<Network<MeleeNode<L1, L2>>, Error>)
        requires
            scan.separator@.len() == 1,
        ensures
            ({
                let sep = crate::launcher::first_byte(scan.separator);
                match crate::launcher::select_fold(
                    scan.entries@,
                    sep,
                    settings.launcher.use_wine,
                ).2 {
                    None => r == Err::<Network<MeleeNode<L1, L2>>, Error>(Error::ExeNotFound),
                    Some(p) => r matches Ok(net) && {
                        &&& net.phase_spec() is Assembling
                        &&& net.n_actors() == 8
                        &&& net.edges_seq() =~= melee_wiring()
                        &&& net.edges_wf()
                        &&& net.fifo_wf()
                        &&& net.queue_seq().len() == 0
                        &&& net.effects_seq().len() == 0
                        &&& net.log_seq().len() == 0
                        &&& (net.actor_at(0) matches MeleeNode::Melee(cell) && cell matches
                            MeleeCell::Init(st) && st.suite == settings.suite)
                        &&& (net.actor_at(1) matches MeleeNode::Launcher(lc) && lc matches
                            LauncherCell::Ready(lr) && lr.launcher.exe == p.0
                            && lr.launcher.current_port == settings.launcher.base_port
                            && lr.launcher.use_wine == settings.launcher.use_wine && ({
                            let present = if p.1 is X64 {
                                scan.support64_present
                            } else {
                                scan.support_present
                            };
                            if present {
                                lr.launcher.pwd matches Some(w) && w@ == scan.dir@
                                    + scan.separator@ + crate::launcher::support_suffix(p.1)
                            } else {
                                lr.launcher.pwd is None
                            }
                        }))
                        &&& (net.actor_at(2) matches MeleeNode::Agent(_))
                        &&& (net.actor_at(3) matches MeleeNode::Agent(_))
                        &&& (net.actor_at(4) matches MeleeNode::Client(_))
                        &&& (net.actor_at(5) matches MeleeNode::Client(_))
                        &&& net.actor_at(6) == MeleeNode::Player1::<L1, L2>(settings.players.0)
                        &&& net.actor_at(7) == MeleeNode::Player2::<L1, L2>(settings.players.1)
                    },
                }
            }),
    {
        let melee = match MeleeCell::new(settings.suite) {
            Ok(c) => c,
            Err(e) => {
                return Err(e);
            },
        };
        let launcher = match Launcher::from(settings.launcher, scan) {
            Ok(l) => l,
            Err(e) => {
                return Err(e);
            },
        };
        let agent1 = match AgentLobe::new() {
            Ok(a) => a,
            Err(e) => {
                return Err(e);
            },
        };
        let agent2 = match AgentLobe::new() {
            Ok(a) => a,
            Err(e) => {
                return Err(e);
            },
        };
        let client1 = match ClientLobe::new() {
            Ok(c) => c,
            Err(e) => {
                return Err(e);
            },
        };
        let client2 = match ClientLobe::new() {
            Ok(c) => c,
            Err(e) => {
                return Err(e);
            },
        };
        let (player1, player2) = settings.players;
        let mut net = Network::new(MeleeNode::Melee(melee));
        let melee_h = net.get_main_handle();
        let launcher_h = net.add_actor(MeleeNode::Launcher(LauncherCell::new(launcher)));
        let agent1_h = net.add_actor(MeleeNode::Agent(agent1));
        let agent2_h = net.add_actor(MeleeNode::Agent(agent2));
        let client1_h = net.add_actor(MeleeNode::Client(client1));
        let client2_h = net.add_actor(MeleeNode::Client(client2));
        let player1_h = net.add_actor(MeleeNode::Player1(player1));
        let player2_h = net.add_actor(MeleeNode::Player2(player2));
        match net.connect(melee_h, launcher_h, Role::Launcher) {
            Ok(()) => {},
            Err(e) => {
                return Err(e);
            },
        }
        match net.connect(melee_h, agent1_h, Role::Controller) {
            Ok(()) => {},
            Err(e) => {
                return Err(e);
            },
        }
        match net.connect(melee_h, agent2_h, Role::Controller) {
            Ok(()) => {},
            Err(e) => {
                return Err(e);
            },
        }
        match net.connect(melee_h, agent1_h, Role::InstanceProvider) {
            Ok(()) => {},
            Err(e) => {
                return Err(e);
            },
        }
        match net.connect(melee_h, agent2_h, Role::InstanceProvider) {
            Ok(()) => {},
            Err(e) => {
                return Err(e);
            },
        }
        match net.connect(agent1_h, client1_h, Role::InstanceProvider) {
            Ok(()) => {},
            Err(e) => {
                return Err(e);
            },
        }
        match net.connect(agent1_h, client1_h, Role::Client) {
            Ok(()) => {},
            Err(e) => {
                return Err(e);
            },
        }
        match net.connect(agent1_h, player1_h, Role::Agent) {
            Ok(()) => {},
            Err(e) => {
                return Err(e);
            },
        }
        match net.connect(agent2_h, client2_h, Role::InstanceProvider) {
            Ok(()) => {},
            Err(e) => {
                return Err(e);
            },
        }
        match net.connect(agent2_h, client2_h, Role::Client) {
            Ok(()) => {},
            Err(e) => {
                return Err(e);
            },
        }
        match net.connect(agent2_h, player2_h, Role::Agent) {
            Ok(()) => {},
            Err(e) => {
                return Err(e);
            },
        }
        proof {
            assert(net.edges_seq() =~= melee_wiring());
        }
        Ok(net)
    }
}

} // verus!
