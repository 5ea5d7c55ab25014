//! Tests of the launcher: executable selection among versioned install
//! paths, working-directory selection, port assignment, and the launcher
//! actor's pools.

use sc2::errors::Error;
use sc2::instance::{Instance, InstanceKind, InstanceSettings};
use sc2::data::{PortSet, Rect};
use sc2::launcher::{
    auto_detect_dir, select_exe, select_pwd, ExeArch, InstallScan, Launcher, LauncherCell,
    LauncherSettings,
};
use sc2::messages::{Message, Role};
use sc2::strconv::u64_to_dec_string;
use sc2::substrate::{Actor, Effect, Handle, Outgoing, Protocol};

const SEP: u8 = b'/';

fn entries(paths: &[&str]) -> Vec<String> {
    paths.iter().map(|p| p.to_string()).collect()
}

#[test]
fn highest_version_wins() {
    let found = entries(&[
        "/games/Versions/Base55958/SC2_x64",
        "/games/Versions/Base60321/SC2_x64",
        "/games/Versions/Base59877/SC2_x64",
    ]);
    let (exe, arch) = select_exe(&found, false, SEP).unwrap();
    assert_eq!(exe, "/games/Versions/Base60321/SC2_x64");
    assert_eq!(arch, ExeArch::X64);
}

#[test]
fn equal_versions_prefer_the_64_bit_build() {
    let found = entries(&[
        "/games/Versions/Base60321/SC2",
        "/games/Versions/Base60321/SC2_x64",
    ]);
    let (exe, arch) = select_exe(&found, false, SEP).unwrap();
    assert_eq!(exe, "/games/Versions/Base60321/SC2_x64");
    assert_eq!(arch, ExeArch::X64);
}

#[test]
fn wine_takes_only_32_bit_builds() {
    let found = entries(&[
        "/games/Versions/Base59877/SC2",
        "/games/Versions/Base60321/SC2_x64",
    ]);
    // The 64-bit build has the higher version, but under Wine only the
    // 32-bit build is eligible.
    let (exe, arch) = select_exe(&found, true, SEP).unwrap();
    assert_eq!(exe, "/games/Versions/Base59877/SC2");
    assert_eq!(arch, ExeArch::X32);
}

#[test]
fn unparseable_candidates_are_skipped() {
    // No digits after "Base", and a version too large to parse: both
    // candidates are disqualified.
    let found = entries(&[
        "/games/Versions/Base/SC2_x64",
        "/games/Versions/Base99999999999/SC2_x64",
    ]);
    assert_eq!(select_exe(&found, false, SEP).unwrap_err(), Error::ExeNotFound);
    assert_eq!(select_exe(&entries(&[]), false, SEP).unwrap_err(), Error::ExeNotFound);
}

#[test]
fn select_pwd_builds_the_support_directory() {
    let dir = "/games".to_string();
    let sep = "/".to_string();
    assert_eq!(
        select_pwd(&dir, ExeArch::X64, &sep, true).unwrap(),
        "/games/Support64"
    );
    assert_eq!(
        select_pwd(&dir, ExeArch::X32, &sep, true).unwrap(),
        "/games/Support"
    );
    assert!(select_pwd(&dir, ExeArch::X64, &sep, false).is_none());
}

#[test]
fn launcher_from_scan_selects_exe_and_pwd() {
    let scan = InstallScan {
        dir: "/games".to_string(),
        entries: entries(&["/games/Versions/Base60321/SC2_x64"]),
        separator: "/".to_string(),
        support_present: false,
        support64_present: true,
    };
    let settings = LauncherSettings { dir: None, use_wine: false, base_port: 9168 };
    let launcher = Launcher::from(settings, scan).unwrap();
    assert_eq!(launcher.exe, "/games/Versions/Base60321/SC2_x64");
    assert_eq!(launcher.pwd.as_deref(), Some("/games/Support64"));
    assert_eq!(launcher.current_port, 9168);
    assert!(!launcher.use_wine);
}

#[test]
fn missing_exe_refuses_the_scan() {
    let scan = InstallScan {
        dir: "/games".to_string(),
        entries: vec![],
        separator: "/".to_string(),
        support_present: false,
        support64_present: false,
    };
    let settings = LauncherSettings::default();
    assert_eq!(Launcher::from(settings, scan).unwrap_err(), Error::ExeNotFound);
}

#[test]
fn default_settings_auto_detect_from_port_9168() {
    let settings = LauncherSettings::default();
    assert!(settings.dir.is_none());
    assert!(!settings.use_wine);
    assert_eq!(settings.base_port, 9168);
}

fn test_launcher() -> Launcher {
    Launcher {
        exe: "/games/Versions/Base60321/SC2_x64".to_string(),
        pwd: Some("/games/Support64".to_string()),
        current_port: 9168,
        use_wine: false,
    }
}

#[test]
fn launch_assigns_consecutive_port_triples() {
    let mut launcher = test_launcher();
    let first = launcher.launch().unwrap();
    assert_eq!(first.address, ("127.0.0.1".to_string(), 9168));
    assert_eq!(first.ports, PortSet { game_port: 9169, base_port: 9170 });
    assert_eq!(first.kind, InstanceKind::Native);
    let second = launcher.launch().unwrap();
    assert_eq!(second.address.1, 9171);
    assert_eq!(second.ports, PortSet { game_port: 9172, base_port: 9173 });
    assert_eq!(launcher.current_port, 9174);
}

#[test]
fn create_game_ports_uses_the_next_triple() {
    let mut launcher = test_launcher();
    let ports = launcher.create_game_ports();
    assert_eq!(ports.shared_port, 9168);
    assert_eq!(ports.server_ports, PortSet { game_port: 9169, base_port: 9170 });
    assert!(ports.client_ports.is_empty());
    assert_eq!(launcher.current_port, 9171);
}

#[test]
fn instance_urls_and_args_are_rendered_exactly() {
    let instance = Instance::from_settings(
        InstanceSettings {
            kind: InstanceKind::Native,
            exe: Some("/games/SC2".to_string()),
            pwd: None,
            address: ("127.0.0.1".to_string(), 9170),
            window_rect: Rect { x: 10, y: 10, w: 1024, h: 768 },
            ports: PortSet { game_port: 9171, base_port: 9172 },
        },
        true,
    )
    .unwrap();
    assert_eq!(instance.ws_url(), "ws://127.0.0.1:9170/sc2api");
    let args = instance.launch_args();
    assert_eq!(
        args,
        vec![
            "-listen",
            "127.0.0.1",
            "-port",
            "9170",
            "-displayMode",
            "0",
            "-windowx",
            "10",
            "-windowy",
            "10",
            "-windowWidth",
            "1024",
            "-windowHeight",
            "768",
        ]
    );
}

#[test]
fn instance_settings_require_an_existing_exe() {
    let base = InstanceSettings {
        kind: InstanceKind::Native,
        exe: None,
        pwd: None,
        address: ("127.0.0.1".to_string(), 9170),
        window_rect: Rect { x: 10, y: 10, w: 1024, h: 768 },
        ports: PortSet { game_port: 9171, base_port: 9172 },
    };
    assert_eq!(Instance::from_settings(base, true).unwrap_err(), Error::ExeNotSpecified);
    let with_exe = InstanceSettings {
        kind: InstanceKind::Native,
        exe: Some("/games/SC2".to_string()),
        pwd: None,
        address: ("127.0.0.1".to_string(), 9170),
        window_rect: Rect { x: 10, y: 10, w: 1024, h: 768 },
        ports: PortSet { game_port: 9171, base_port: 9172 },
    };
    assert_eq!(
        Instance::from_settings(with_exe, false).unwrap_err(),
        Error::ExeDoesNotExist("/games/SC2".to_string())
    );
}

#[test]
fn decimal_rendering_is_exact() {
    assert_eq!(u64_to_dec_string(0), "0");
    assert_eq!(u64_to_dec_string(7), "7");
    assert_eq!(u64_to_dec_string(9168), "9168");
    assert_eq!(u64_to_dec_string(18446744073709551615), "18446744073709551615");
}

#[test]
fn launcher_actor_grows_its_pools_on_demand() {
    let orchestrator = Handle::new(0);
    let me = Handle::new(1);
    let cell = LauncherCell::new(test_launcher());
    let step = |c: LauncherCell, ev| -> sc2::substrate::Step<LauncherCell> { c.update(ev).unwrap() };
    let s = step(cell, Protocol::Init(me));
    let s = step(s.actor, Protocol::AddInput(orchestrator, Role::Launcher));
    let s = step(s.actor, Protocol::Start);
    // An empty pool at first.
    let s = step(s.actor, Protocol::Message(orchestrator, Message::GetInstancePool));
    assert!(matches!(
        &s.outbox[..],
        [Outgoing { msg: Message::InstancePool(v), .. }] if v.is_empty()
    ));
    // The first launch starts a process and pools one instance; no game
    // ports yet.
    let s = step(s.actor, Protocol::Message(orchestrator, Message::LaunchInstance));
    assert!(matches!(&s.effects[..], [Effect::LaunchProcess(_)]));
    match &s.outbox[..] {
        [
            Outgoing { msg: Message::InstancePool(v), .. },
            Outgoing { msg: Message::PortsPool(w), .. },
        ] => {
            assert_eq!(v.len(), 1);
            assert_eq!(v[0].0, 0);
            assert_eq!(v[0].1, "ws://127.0.0.1:9168/sc2api");
            assert_eq!(v[0].2, PortSet { game_port: 9169, base_port: 9170 });
            assert!(w.is_empty());
        },
        other => panic!("expected both pool updates, got {:?}", other),
    }
    // The second launch pairs the instances and creates one game-port
    // set.
    let s = step(s.actor, Protocol::Message(orchestrator, Message::LaunchInstance));
    match &s.outbox[..] {
        [
            Outgoing { msg: Message::InstancePool(v), .. },
            Outgoing { msg: Message::PortsPool(w), .. },
        ] => {
            assert_eq!(v.len(), 2);
            assert_eq!(v[1].0, 1);
            assert_eq!(w.len(), 1);
            assert_eq!(w[0].shared_port, 9174);
        },
        other => panic!("expected both pool updates, got {:?}", other),
    }
}

#[test]
fn exhausted_port_space_refuses_a_launch() {
    let orchestrator = Handle::new(0);
    let me = Handle::new(1);
    let cell = LauncherCell::new(Launcher {
        exe: "/games/SC2".to_string(),
        pwd: None,
        current_port: 65533,
        use_wine: false,
    });
    let s = cell.update(Protocol::Init(me)).unwrap();
    let s = s.actor.update(Protocol::AddInput(orchestrator, Role::Launcher)).unwrap();
    let err = s
        .actor
        .update(Protocol::Message(orchestrator, Message::LaunchInstance))
        .unwrap_err();
    assert_eq!(err, Error::PortsExhausted);
}

#[test]
fn auto_detection_takes_the_first_present_candidate() {
    let candidates = vec![
        ("C:\\Program Files (x86)\\StarCraft II".to_string(), false),
        ("C:\\Program Files\\StarCraft II".to_string(), true),
    ];
    assert_eq!(auto_detect_dir(&candidates).unwrap(), "C:\\Program Files\\StarCraft II");
    let none = vec![
        ("C:\\Program Files (x86)\\StarCraft II".to_string(), false),
        ("C:\\Program Files\\StarCraft II".to_string(), false),
    ];
    assert_eq!(auto_detect_dir(&none).unwrap_err(), Error::ExeNotSpecified);
    assert_eq!(auto_detect_dir(&vec![]).unwrap_err(), Error::ExeNotSpecified);
}
