//! Tests of the actor substrate and of full-network assembly: arity
//! validation before any `Start`, message relay, and the melee network's
//! construction failure with a single Controller peer.

use sc2::client::ClientLobe;
use sc2::data::{GameSettings, PlayerSetup, Race};
use sc2::errors::Error;
use sc2::launcher::{Launcher, LauncherCell};
use sc2::melee::{MeleeCell, MeleeNode, MeleeSuite};
use sc2::messages::{Message, Role};
use sc2::substrate::{Actor, Constraint, Effect, Handle, Network, Outgoing, Protocol, Soma, Step};

/// A scripted bot for tests: it records the lifecycle events it saw and
/// answers a setup request with a fixed player setup.
struct ScriptedBot {
    saw_start: bool,
    saw_init: bool,
    setup: PlayerSetup,
}

impl ScriptedBot {
    fn new(setup: PlayerSetup) -> ScriptedBot {
        ScriptedBot { saw_start: false, saw_init: false, setup }
    }
}

impl Actor for ScriptedBot {
    fn update(mut self, event: Protocol) -> Result<Step<ScriptedBot>, Error> {
        let mut outbox = vec![];
        match event {
            Protocol::Init(_) => self.saw_init = true,
            Protocol::Start => self.saw_start = true,
            Protocol::Message(src, Message::RequestPlayerSetup(_)) => {
                outbox.push(Outgoing { dest: src, msg: Message::PlayerSetup(self.setup) });
            },
            _ => {},
        }
        Ok(Step { actor: self, outbox, effects: vec![], stop: false })
    }
}

fn pooled_launcher() -> Launcher {
    Launcher {
        exe: "/games/Versions/Base60321/SC2_x64".to_string(),
        pwd: None,
        current_port: 9168,
        use_wine: false,
    }
}

#[test]
fn soma_validation_is_exact() {
    let mut soma = Soma::new(vec![Constraint::RequireOne(Role::Client)], vec![]);
    // Unmet "exactly one" aborts with a descriptive arity error.
    match soma.update(Protocol::Start) {
        Err(Error::ArityViolation { role, found }) => {
            assert_eq!(role, Role::Client);
            assert_eq!(found, 0);
        },
        other => panic!("expected an arity violation, got {:?}", other),
    }
    // One peer satisfies it.
    let _ = soma.update(Protocol::AddInput(Handle::new(4), Role::Client)).unwrap();
    assert!(matches!(soma.update(Protocol::Start), Ok(Some(Protocol::Start))));
    // A second peer violates it again.
    let _ = soma.update(Protocol::AddInput(Handle::new(5), Role::Client)).unwrap();
    match soma.update(Protocol::Start) {
        Err(Error::ArityViolation { role, found }) => {
            assert_eq!(role, Role::Client);
            assert_eq!(found, 2);
        },
        other => panic!("expected an arity violation, got {:?}", other),
    }
}

#[test]
fn variadic_constraints_are_always_met() {
    let mut soma = Soma::new(vec![Constraint::Variadic(Role::Controller)], vec![]);
    assert!(matches!(soma.update(Protocol::Start), Ok(Some(Protocol::Start))));
}

#[test]
fn req_input_needs_exactly_one_peer() {
    let mut soma = Soma::new(vec![], vec![]);
    assert_eq!(
        soma.req_input(Role::Client).unwrap_err(),
        Error::MissingPeer { role: Role::Client }
    );
    let _ = soma.update(Protocol::AddInput(Handle::new(4), Role::Client)).unwrap();
    assert_eq!(soma.req_input(Role::Client).unwrap(), Handle::new(4));
    let _ = soma.update(Protocol::AddInput(Handle::new(5), Role::Client)).unwrap();
    assert_eq!(
        soma.req_input(Role::Client).unwrap_err(),
        Error::MissingPeer { role: Role::Client }
    );
}

#[test]
fn var_output_keeps_wiring_order() {
    let mut soma = Soma::new(vec![], vec![]);
    let _ = soma.update(Protocol::AddOutput(Handle::new(7), Role::Controller)).unwrap();
    let _ = soma.update(Protocol::AddOutput(Handle::new(3), Role::Controller)).unwrap();
    let _ = soma.update(Protocol::AddOutput(Handle::new(9), Role::Agent)).unwrap();
    assert_eq!(soma.var_output(Role::Controller), vec![Handle::new(7), Handle::new(3)]);
}

type Net = Network<MeleeNode<ScriptedBot, ScriptedBot>>;

/// Assembles a melee network with the given number of bots wired as
/// Controller/InstanceProvider peers.
fn assemble(bots: usize) -> (Net, Vec<Handle>) {
    let melee = MeleeCell::new(MeleeSuite::OneAndDone(GameSettings {
        map: "maps/arena.SC2Map".to_string(),
    }))
    .unwrap();
    let mut net: Net = Network::new(MeleeNode::Melee(melee));
    let melee_h = net.get_main_handle();
    let launcher_h = net.add_actor(MeleeNode::Launcher(LauncherCell::new(pooled_launcher())));
    net.connect(melee_h, launcher_h, Role::Launcher).unwrap();
    let mut bot_handles = vec![];
    for _ in 0..bots {
        let bot_h = net.add_actor(MeleeNode::Player1(ScriptedBot::new(PlayerSetup::Player {
            race: Race::Terran,
        })));
        net.connect(melee_h, bot_h, Role::Controller).unwrap();
        net.connect(melee_h, bot_h, Role::InstanceProvider).unwrap();
        bot_handles.push(bot_h);
    }
    (net, bot_handles)
}

#[test]
fn single_controller_fails_construction_before_any_start() {
    let (mut net, bots) = assemble(1);
    let err = net.start().unwrap_err();
    // The construction fails with a descriptive error...
    assert_eq!(
        err,
        Error::WrongPeerCount { role: Role::InstanceProvider, expected: 2, found: 1 }
    );
    // ...and the bot actor never received its Start event. The failed
    // run no longer answers by handle, so look the bot up by kind.
    let mut found = false;
    for i in 0..4 {
        if let Some(MeleeNode::Player1(bot)) = net.actor(Handle::new(i)) {
            found = true;
            assert!(bot.saw_init, "assembly delivered Init");
            assert!(!bot.saw_start, "no Start may be delivered after the failure");
        }
    }
    assert!(found, "the bot actor must still be in the network");
    let _ = bots;
}

#[test]
fn two_controllers_pass_construction() {
    let (mut net, bots) = assemble(2);
    net.start().unwrap();
    for bot in bots {
        match net.actor(bot) {
            Some(MeleeNode::Player1(b)) => assert!(b.saw_start),
            _ => panic!("expected a bot actor"),
        }
    }
}

#[test]
fn melee_network_runs_to_a_bound_match() {
    // Full relay: the orchestrator collects setups, the launcher launches
    // the shortfall, the connection actors connect, and the match reaches
    // player-vs-player with the game created.
    let melee = MeleeCell::new(MeleeSuite::OneAndDone(GameSettings {
        map: "maps/arena.SC2Map".to_string(),
    }))
    .unwrap();
    let mut net: Net = Network::new(MeleeNode::Melee(melee));
    let melee_h = net.get_main_handle();
    let launcher_h = net.add_actor(MeleeNode::Launcher(LauncherCell::new(pooled_launcher())));
    let agent1_h = net.add_actor(MeleeNode::Agent(sc2::agent::AgentLobe::new().unwrap()));
    let agent2_h = net.add_actor(MeleeNode::Agent(sc2::agent::AgentLobe::new().unwrap()));
    let client1_h = net.add_actor(MeleeNode::Client(ClientLobe::new().unwrap()));
    let client2_h = net.add_actor(MeleeNode::Client(ClientLobe::new().unwrap()));
    let bot1_h = net.add_actor(MeleeNode::Player1(ScriptedBot::new(PlayerSetup::Player {
        race: Race::Terran,
    })));
    let bot2_h = net.add_actor(MeleeNode::Player2(ScriptedBot::new(PlayerSetup::Player {
        race: Race::Zerg,
    })));
    net.connect(melee_h, launcher_h, Role::Launcher).unwrap();
    net.connect(melee_h, agent1_h, Role::Controller).unwrap();
    net.connect(melee_h, agent2_h, Role::Controller).unwrap();
    net.connect(melee_h, agent1_h, Role::InstanceProvider).unwrap();
    net.connect(melee_h, agent2_h, Role::InstanceProvider).unwrap();
    net.connect(agent1_h, client1_h, Role::InstanceProvider).unwrap();
    net.connect(agent1_h, client1_h, Role::Client).unwrap();
    net.connect(agent1_h, bot1_h, Role::Agent).unwrap();
    net.connect(agent2_h, client2_h, Role::InstanceProvider).unwrap();
    net.connect(agent2_h, client2_h, Role::Client).unwrap();
    net.connect(agent2_h, bot2_h, Role::Agent).unwrap();

    net.start().unwrap();
    assert!(net.pump(1000).unwrap(), "the queue must drain");
    // The launcher was asked to make up the shortfall: two processes.
    let effects = net.take_effects();
    let launches = effects
        .iter()
        .filter(|(_, e)| matches!(e, Effect::LaunchProcess(_)))
        .count();
    assert_eq!(launches, 2);
    // The two connection actors were asked to connect to the two
    // launched instances.
    let connects: Vec<&Handle> = effects
        .iter()
        .filter(|(_, e)| matches!(e, Effect::Connect { .. }))
        .map(|(h, _)| h)
        .collect();
    assert_eq!(connects, vec![&client1_h, &client2_h]);
    // The transport connects: each connection actor hears of it.
    net.inject(client1_h, Message::ClientConnected).unwrap();
    net.inject(client2_h, Message::ClientConnected).unwrap();
    assert!(net.pump(1000).unwrap());
    // Readiness travelled client -> agent -> orchestrator, the game was
    // created, and both sides were told to join.
    match net.actor(melee_h) {
        Some(MeleeNode::Melee(MeleeCell::PlayerVsPlayer(p))) => {
            assert_eq!(p.ready, (true, true));
        },
        other => panic!("expected player-vs-player, got {:?}", other.is_some()),
    }
}

#[test]
fn sends_to_unknown_actors_are_dropped_silently() {
    let (mut net, _) = assemble(2);
    net.start().unwrap();
    assert_eq!(
        net.inject(Handle::new(99), Message::GameEnded).unwrap_err(),
        Error::InvalidHandle
    );
}

#[test]
fn agent_cortex_needs_its_composer() {
    // The standalone agent network assembles, but its mediator's
    // Controller and InstanceProvider ports are for the composer to wire:
    // started alone, construction fails on their arity.
    let mut net =
        sc2::agent::AgentLobe::cortex(ScriptedBot::new(PlayerSetup::Player { race: Race::Terran }))
            .unwrap();
    match net.start() {
        Err(Error::ArityViolation { role, found }) => {
            assert_eq!(role, Role::Controller);
            assert_eq!(found, 0);
        },
        other => panic!("expected an arity violation, got {:?}", other),
    }
}
