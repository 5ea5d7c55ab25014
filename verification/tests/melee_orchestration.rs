//! Tests of the melee orchestrator: the PvP port-assignment scenario, the
//! suite-repeat scenario, and the arity-violation scenario.

use sc2::data::{GameSettings, GamePorts, PlayerSetup, PortSet, Race};
use sc2::errors::Error;
use sc2::melee::{MeleeCell, MeleeSuite};
use sc2::messages::{Message, Role};
use sc2::substrate::{Handle, Outgoing, Protocol, Step};

fn game() -> GameSettings {
    GameSettings { map: "maps/arena.SC2Map".to_string() }
}

fn player() -> PlayerSetup {
    PlayerSetup::Player { race: Race::Terran }
}

struct Peers {
    orchestrator: Handle,
    launcher: Handle,
    bot_a: Handle,
    bot_b: Handle,
}

fn peers() -> Peers {
    Peers {
        orchestrator: Handle::new(0),
        launcher: Handle::new(1),
        bot_a: Handle::new(2),
        bot_b: Handle::new(3),
    }
}

/// Drives a fresh orchestrator through assembly and setup, up to the
/// point where both bots replied with their setups.
fn drive_to_launch(suite: MeleeSuite, p: &Peers) -> Step<MeleeCell> {
    let cell = MeleeCell::new(suite).unwrap();
    let s = cell.step_event(Protocol::Init(p.orchestrator)).unwrap();
    let s = s.actor.step_event(Protocol::AddOutput(p.launcher, Role::Launcher)).unwrap();
    let s = s.actor.step_event(Protocol::AddOutput(p.bot_a, Role::Controller)).unwrap();
    let s = s.actor.step_event(Protocol::AddOutput(p.bot_b, Role::Controller)).unwrap();
    let s = s.actor.step_event(Protocol::AddOutput(p.bot_a, Role::InstanceProvider)).unwrap();
    let s = s.actor.step_event(Protocol::AddOutput(p.bot_b, Role::InstanceProvider)).unwrap();
    let s = s.actor.step_event(Protocol::Start).unwrap();
    // Both bots are asked for their setup.
    assert!(matches!(
        &s.outbox[..],
        [
            Outgoing { dest: a, msg: Message::RequestPlayerSetup(_) },
            Outgoing { dest: b, msg: Message::RequestPlayerSetup(_) },
        ] if *a == p.bot_a && *b == p.bot_b
    ));
    let s = s
        .actor
        .step_event(Protocol::Message(p.bot_a, Message::PlayerSetup(player())))
        .unwrap();
    assert!(s.outbox.is_empty());
    let s = s
        .actor
        .step_event(Protocol::Message(p.bot_b, Message::PlayerSetup(player())))
        .unwrap();
    // Both setups known: the launcher is asked for its pools.
    assert!(matches!(
        &s.outbox[..],
        [
            Outgoing { dest: a, msg: Message::GetInstancePool },
            Outgoing { dest: b, msg: Message::GetPortsPool },
        ] if *a == p.launcher && *b == p.launcher
    ));
    s
}

/// Feeds the pooled instances and ports of the PvP port-assignment
/// scenario and returns the step that binds them.
fn feed_pvp_pools(s: Step<MeleeCell>, p: &Peers) -> Step<MeleeCell> {
    let instances = vec![
        (1u64, "ws://127.0.0.1:7001/sc2api".to_string(), PortSet { game_port: 7001, base_port: 7002 }),
        (2u64, "ws://127.0.0.1:7003/sc2api".to_string(), PortSet { game_port: 7003, base_port: 7004 }),
    ];
    let ports = vec![GamePorts {
        shared_port: 7000,
        server_ports: PortSet { game_port: 7005, base_port: 7006 },
        client_ports: vec![],
    }];
    let s = s
        .actor
        .step_event(Protocol::Message(p.launcher, Message::InstancePool(instances)))
        .unwrap();
    // Two instances are pooled: nothing needs launching, but the ports
    // pool is still empty, so the orchestrator keeps waiting.
    assert!(s.outbox.is_empty());
    s.actor
        .step_event(Protocol::Message(p.launcher, Message::PortsPool(ports)))
        .unwrap()
}

#[test]
fn pvp_port_assignment_binds_pooled_instances_in_order() {
    let p = peers();
    let s = drive_to_launch(MeleeSuite::OneAndDone(game()), &p);
    let s = feed_pvp_pools(s, &p);
    // Instance A goes to the first Controller/Client pair, B to the
    // second.
    match &s.outbox[..] {
        [
            Outgoing { dest: a, msg: Message::ProvideInstance(1, url_a) },
            Outgoing { dest: b, msg: Message::ProvideInstance(2, url_b) },
        ] => {
            assert_eq!(*a, p.bot_a);
            assert_eq!(*b, p.bot_b);
            assert_eq!(url_a, "ws://127.0.0.1:7001/sc2api");
            assert_eq!(url_b, "ws://127.0.0.1:7003/sc2api");
        },
        other => panic!("expected two instance assignments, got {:?}", other),
    }
    // Both bots signal readiness; the first is told to create the game.
    let s = s.actor.step_event(Protocol::Message(p.bot_a, Message::Ready)).unwrap();
    assert!(s.outbox.is_empty());
    let s = s.actor.step_event(Protocol::Message(p.bot_b, Message::Ready)).unwrap();
    assert!(matches!(
        &s.outbox[..],
        [Outgoing { dest, msg: Message::CreateGame(_, setups) }]
            if *dest == p.bot_a && setups.len() == 2
    ));
    // On creation, the GameReady payload carries both client port-sets
    // plus the shared port.
    let s = s.actor.step_event(Protocol::Message(p.bot_a, Message::GameCreated)).unwrap();
    match &s.outbox[..] {
        [
            Outgoing { dest: a, msg: Message::GameReady(_, Some(ports_a)) },
            Outgoing { dest: b, msg: Message::GameReady(_, Some(ports_b)) },
        ] => {
            assert_eq!(*a, p.bot_a);
            assert_eq!(*b, p.bot_b);
            for ports in [ports_a, ports_b] {
                assert_eq!(ports.shared_port, 7000);
                assert_eq!(
                    ports.client_ports,
                    vec![
                        PortSet { game_port: 7001, base_port: 7002 },
                        PortSet { game_port: 7003, base_port: 7004 },
                    ]
                );
            }
        },
        other => panic!("expected two GameReady notices, got {:?}", other),
    }
}

#[test]
fn launch_shortfall_never_over_launches() {
    let p = peers();
    let s = drive_to_launch(MeleeSuite::OneAndDone(game()), &p);
    // An empty instance pool: exactly two launches are requested for PvP.
    let s = s
        .actor
        .step_event(Protocol::Message(p.launcher, Message::InstancePool(vec![])))
        .unwrap();
    assert!(matches!(
        &s.outbox[..],
        [
            Outgoing { dest: a, msg: Message::LaunchInstance },
            Outgoing { dest: b, msg: Message::LaunchInstance },
        ] if *a == p.launcher && *b == p.launcher
    ));
    // A second empty pool update requests nothing further.
    let s = s
        .actor
        .step_event(Protocol::Message(p.launcher, Message::InstancePool(vec![])))
        .unwrap();
    assert!(s.outbox.is_empty());
}

#[test]
fn suite_repeat_returns_to_setup_with_the_same_peers() {
    let p = peers();
    let s = drive_to_launch(MeleeSuite::EndlessRepeat(game()), &p);
    let s = feed_pvp_pools(s, &p);
    let s = s.actor.step_event(Protocol::Message(p.bot_a, Message::Ready)).unwrap();
    let s = s.actor.step_event(Protocol::Message(p.bot_b, Message::Ready)).unwrap();
    let s = s.actor.step_event(Protocol::Message(p.bot_a, Message::GameCreated)).unwrap();
    let s = s.actor.step_event(Protocol::Message(p.bot_a, Message::GameEnded)).unwrap();
    assert!(s.outbox.is_empty());
    assert!(!s.stop);
    let s = s.actor.step_event(Protocol::Message(p.bot_b, Message::GameEnded)).unwrap();
    // The repeating suite loops back to setup, with the same two bot
    // identities and launcher peer, not fresh ones.
    assert!(!s.stop);
    match &s.actor {
        MeleeCell::Setup(setup) => {
            assert_eq!(setup.agents, (p.bot_a, p.bot_b));
            assert_eq!(setup.clients, (p.bot_a, p.bot_b));
            assert!(setup.suite.is_some());
        },
        other => panic!("expected the setup phase, got {:?}", other),
    }
    assert!(matches!(
        &s.outbox[..],
        [
            Outgoing { dest: a, msg: Message::RequestPlayerSetup(_) },
            Outgoing { dest: b, msg: Message::RequestPlayerSetup(_) },
        ] if *a == p.bot_a && *b == p.bot_b
    ));
}

#[test]
fn one_and_done_suite_completes_and_stops_the_network() {
    let p = peers();
    let s = drive_to_launch(MeleeSuite::OneAndDone(game()), &p);
    let s = feed_pvp_pools(s, &p);
    let s = s.actor.step_event(Protocol::Message(p.bot_a, Message::Ready)).unwrap();
    let s = s.actor.step_event(Protocol::Message(p.bot_b, Message::Ready)).unwrap();
    let s = s.actor.step_event(Protocol::Message(p.bot_a, Message::GameCreated)).unwrap();
    let s = s.actor.step_event(Protocol::Message(p.bot_a, Message::GameEnded)).unwrap();
    let s = s.actor.step_event(Protocol::Message(p.bot_b, Message::GameEnded)).unwrap();
    assert!(s.stop, "an exhausted suite stops the whole network");
    assert!(matches!(s.actor, MeleeCell::Completed(_)));
}

#[test]
fn player_vs_computer_uses_a_single_instance_and_side() {
    let p = peers();
    let cell = MeleeCell::new(MeleeSuite::OneAndDone(game())).unwrap();
    let s = cell.step_event(Protocol::Init(p.orchestrator)).unwrap();
    let s = s.actor.step_event(Protocol::AddOutput(p.launcher, Role::Launcher)).unwrap();
    let s = s.actor.step_event(Protocol::AddOutput(p.bot_a, Role::Controller)).unwrap();
    let s = s.actor.step_event(Protocol::AddOutput(p.bot_b, Role::Controller)).unwrap();
    let s = s.actor.step_event(Protocol::AddOutput(p.bot_a, Role::InstanceProvider)).unwrap();
    let s = s.actor.step_event(Protocol::AddOutput(p.bot_b, Role::InstanceProvider)).unwrap();
    let s = s.actor.step_event(Protocol::Start).unwrap();
    let s = s
        .actor
        .step_event(Protocol::Message(p.bot_a, Message::PlayerSetup(player())))
        .unwrap();
    let computer = PlayerSetup::Computer {
        race: Race::Zerg,
        difficulty: sc2::data::Difficulty::Medium,
    };
    let s = s
        .actor
        .step_event(Protocol::Message(p.bot_b, Message::PlayerSetup(computer)))
        .unwrap();
    // One instance suffices for PvC.
    let instances = vec![(
        5u64,
        "ws://127.0.0.1:9170/sc2api".to_string(),
        PortSet { game_port: 9171, base_port: 9172 },
    )];
    let s = s
        .actor
        .step_event(Protocol::Message(p.launcher, Message::InstancePool(instances)))
        .unwrap();
    assert!(matches!(
        &s.outbox[..],
        [Outgoing { dest, msg: Message::ProvideInstance(5, _) }] if *dest == p.bot_a
    ));
    assert!(matches!(s.actor, MeleeCell::PlayerVsComputer(_)));
    // Only the bot-controlled side exchanges the game handshake.
    let s = s.actor.step_event(Protocol::Message(p.bot_a, Message::Ready)).unwrap();
    assert!(matches!(
        &s.outbox[..],
        [Outgoing { dest, msg: Message::CreateGame(..) }] if *dest == p.bot_a
    ));
    let s = s.actor.step_event(Protocol::Message(p.bot_a, Message::GameCreated)).unwrap();
    assert!(matches!(
        &s.outbox[..],
        [Outgoing { dest, msg: Message::GameReady(_, None) }] if *dest == p.bot_a
    ));
    let s = s.actor.step_event(Protocol::Message(p.bot_a, Message::GameEnded)).unwrap();
    assert!(s.stop);
}

#[test]
fn two_observers_are_an_invalid_configuration() {
    let p = peers();
    let cell = MeleeCell::new(MeleeSuite::OneAndDone(game())).unwrap();
    let t = cell.step_event(Protocol::Init(p.orchestrator)).unwrap();
    let t = t.actor.step_event(Protocol::AddOutput(p.launcher, Role::Launcher)).unwrap();
    let t = t.actor.step_event(Protocol::AddOutput(p.bot_a, Role::Controller)).unwrap();
    let t = t.actor.step_event(Protocol::AddOutput(p.bot_b, Role::Controller)).unwrap();
    let t = t.actor.step_event(Protocol::AddOutput(p.bot_a, Role::InstanceProvider)).unwrap();
    let t = t.actor.step_event(Protocol::AddOutput(p.bot_b, Role::InstanceProvider)).unwrap();
    let t = t.actor.step_event(Protocol::Start).unwrap();
    let t = t
        .actor
        .step_event(Protocol::Message(p.bot_a, Message::PlayerSetup(PlayerSetup::Observer)))
        .unwrap();
    let err = t
        .actor
        .step_event(Protocol::Message(p.bot_b, Message::PlayerSetup(PlayerSetup::Observer)))
        .unwrap_err();
    assert_eq!(err, Error::InvalidPlayerSetups);
}

#[test]
fn out_of_phase_messages_are_fatal() {
    let p = peers();
    let s = drive_to_launch(MeleeSuite::OneAndDone(game()), &p);
    // A Ready during the launch phase has no defined recovery.
    let err = s.actor.step_event(Protocol::Message(p.bot_a, Message::Ready)).unwrap_err();
    assert_eq!(err, Error::UnexpectedMessage);
}

#[test]
fn one_pooled_instance_requests_exactly_one_launch() {
    let p = peers();
    let s = drive_to_launch(MeleeSuite::OneAndDone(game()), &p);
    // One instance is already pooled: the PvP shortfall is one, and
    // exactly one launch is requested - never more.
    let pool = vec![(
        9u64,
        "ws://127.0.0.1:7001/sc2api".to_string(),
        PortSet { game_port: 7001, base_port: 7002 },
    )];
    let s = s
        .actor
        .step_event(Protocol::Message(p.launcher, Message::InstancePool(pool)))
        .unwrap();
    assert!(matches!(
        &s.outbox[..],
        [Outgoing { dest, msg: Message::LaunchInstance }] if *dest == p.launcher
    ));
    // A repeated update with the same single instance requests nothing
    // further: the earlier request already covers the shortfall.
    let pool = vec![(
        9u64,
        "ws://127.0.0.1:7001/sc2api".to_string(),
        PortSet { game_port: 7001, base_port: 7002 },
    )];
    let s = s
        .actor
        .step_event(Protocol::Message(p.launcher, Message::InstancePool(pool)))
        .unwrap();
    assert!(s.outbox.is_empty());
}
