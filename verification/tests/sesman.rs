use lamco_rdp_server::clock::Timestamp;
use lamco_rdp_server::gui::state::LogLevel;
use lamco_rdp_server::sesman::cli::{
    ensure_options, keep_watching, log_level, poll_interval, requested_size, ClientRequest,
    SesmanCommand,
};
use lamco_rdp_server::sesman::config::{
    ComponentConfig, ConfigSource, ReadinessCheck, RuntimeEnv, SesmanConfig, SessionSize,
};
use lamco_rdp_server::sesman::ensure::{EnsureAction, EnsureEvent, EnsureStep};
use lamco_rdp_server::sesman::lock::{
    cleanup_simple_glob, lock_decision, lock_owner, matches_glob, stale_lock, Cleanup,
    LockDecision,
};
use lamco_rdp_server::sesman::manager::SessionManager;
use lamco_rdp_server::sesman::session::{
    ready_wait, spawn_plan, EnsureOptions, ReadyWait, SessionHealth, SessionState,
};
use lamco_rdp_server::sesman::stop::{StopAction, StopEvent, StopStep};
use lamco_rdp_server::text_map::TextMap;

const NOW: Timestamp = Timestamp { secs: 1_700_000_000, nanos: 0 };

fn env() -> RuntimeEnv {
    RuntimeEnv { user: Some("alice".to_string()), xdg_runtime_dir: None }
}

#[test]
fn default_config_matches_live_nested_stack() {
    let config = SesmanConfig::defaults(&env());
    assert_eq!(config.components.len(), 3);
    assert_eq!(config.components[0].name, "weston");
    assert_eq!(config.components[1].name, "niri");
    assert_eq!(config.components[2].name, "lamco-rdp-server");
    assert_eq!(
        config.components[1].env.get("WAYLAND_DISPLAY"),
        Some(&"wayland-weston".to_string())
    );
    assert_eq!(
        config.components[2].env.get("WAYLAND_DISPLAY"),
        Some(&"wayland-1".to_string())
    );
}

fn text(table: &toml::Table, key: &str) -> String {
    table[key].as_str().expect("a text").to_string()
}

/// The settings of a parsed file, with nothing where the file is silent.
fn settings(table: &toml::Table) -> SesmanConfig {
    let components = table["components"]
        .as_array()
        .expect("a list")
        .iter()
        .map(|c| {
            let c = c.as_table().expect("a component");
            assert_eq!(c["readiness"]["type"].as_str(), Some("process_alive"));
            ComponentConfig {
                name: text(c, "name"),
                command: text(c, "command"),
                args: c["args"]
                    .as_array()
                    .expect("a list")
                    .iter()
                    .map(|a| a.as_str().expect("a text").to_string())
                    .collect(),
                env: TextMap::new(),
                working_dir: None,
                log_path: None,
                readiness: ReadinessCheck::ProcessAlive,
                required: true,
                startup_delay_ms: 0,
            }
        })
        .collect();
    SesmanConfig {
        session_name: text(table, "session_name"),
        user: text(table, "user"),
        xdg_runtime_dir: text(table, "xdg_runtime_dir"),
        state_dir: text(table, "state_dir"),
        log_dir: text(table, "log_dir"),
        default_size: SessionSize::default(),
        start_timeout_ms: 15_000,
        stop_timeout_ms: 10_000,
        environment: TextMap::new(),
        cleanup_paths: Vec::new(),
        cleanup_globs: Vec::new(),
        components,
    }
}

fn test_config() -> SesmanConfig {
    let toml = r#"
            session_name = "test"
            user = "alice"
            xdg_runtime_dir = "/tmp/runtime-alice"
            state_dir = "/tmp/state"
            log_dir = "/tmp/logs"

            [[components]]
            name = "dummy"
            command = "/bin/sleep"
            args = ["60"]
            readiness = { type = "process_alive" }
        "#;
    let table: toml::Table = toml::from_str(toml).expect("test TOML should parse");
    settings(&table)
}

#[test]
fn toml_config_can_override_components() {
    let mut config = test_config();
    config.apply_runtime_defaults(&env());
    config.validate().expect("test config should validate");
    assert_eq!(config.session_name, "test");
    assert_eq!(config.components.len(), 1);
    assert_eq!(config.components[0].command, "/bin/sleep");
}

#[test]
fn unusable_configurations_are_refused() {
    let refuse = |change: &dyn Fn(&mut SesmanConfig)| {
        let mut config = test_config();
        change(&mut config);
        config.validate().unwrap_err()
    };
    assert_eq!(
        refuse(&|c| c.session_name = " \t".to_string()),
        "session_name cannot be empty"
    );
    assert_eq!(refuse(&|c| c.components.clear()), "at least one component is required");
    assert_eq!(
        refuse(&|c| c.components[0].name = String::new()),
        "component name cannot be empty"
    );
    assert_eq!(
        refuse(&|c| c.components[0].command = " ".to_string()),
        "component dummy has empty command"
    );
}

#[test]
fn configurations_come_from_files_or_defaults() {
    let missing = SesmanConfig::load(ConfigSource::Missing, &env()).unwrap();
    assert_eq!(missing.session_name, "default");
    assert_eq!(missing.user, "alice");
    assert_eq!(missing.state_path(), "/run/user/1000/lamco-sesman/default.state.json");
    let unnamed = SesmanConfig::load(ConfigSource::Unnamed, &env()).unwrap();
    assert_eq!(unnamed.default_size, SessionSize { width: 1920, height: 1080 });
    let unreadable = ConfigSource::Unreadable { path: "p".to_string(), error: "e".to_string() };
    let failure = SesmanConfig::load(unreadable, &env()).unwrap_err();
    assert_eq!(failure.message, "failed to read p");
    assert_eq!(failure.cause.as_deref(), Some("e"));
    let malformed = ConfigSource::Malformed { path: "p".to_string(), error: "e".to_string() };
    let failure = SesmanConfig::load(malformed, &env()).unwrap_err();
    assert_eq!(failure.message, "failed to parse p");
    assert_eq!(failure.cause.as_deref(), Some("e"));
    let mut nameless = test_config();
    nameless.session_name = " ".to_string();
    let failure = SesmanConfig::load(ConfigSource::Parsed(nameless), &env()).unwrap_err();
    assert_eq!(failure.message, "session_name cannot be empty");
    assert_eq!(failure.cause, None);
    let parsed = SesmanConfig::load(ConfigSource::Parsed(test_config()), &env()).unwrap();
    assert!(!parsed.environment.entries.is_empty());
    assert!(!parsed.cleanup_globs.is_empty());
    assert_eq!(parsed.state_path(), "/tmp/state/test.state.json");
}

fn component(config: &SesmanConfig) -> &ComponentConfig {
    &config.components[0]
}

#[test]
fn components_get_their_own_variables() {
    let mut config = test_config();
    config.environment.insert("A".to_string(), "all".to_string());
    config.environment.insert("B".to_string(), "all".to_string());
    config.components[0].env.insert("B".to_string(), "own".to_string());
    let plan = spawn_plan(&config, component(&config));
    assert_eq!(plan.program, "/bin/sleep");
    assert_eq!(plan.args, vec!["60"]);
    assert_eq!(plan.env.get("A").map(String::as_str), Some("all"));
    assert_eq!(plan.env.get("B").map(String::as_str), Some("own"));
    assert_eq!(
        plan.env.get("XDG_RUNTIME_DIR").map(String::as_str),
        Some("/tmp/runtime-alice")
    );
    assert_eq!(plan.log_path, "/tmp/logs/dummy.log");
}

#[test]
fn readiness_has_a_limit() {
    let mut config = test_config();
    assert!(matches!(
        ready_wait(&config, component(&config), true, false, 0),
        ReadyWait::Ready
    ));
    assert!(matches!(
        ready_wait(&config, component(&config), false, false, 0),
        ReadyWait::Failed(t) if t == "component dummy exited before becoming ready"
    ));
    config.components[0].readiness = ReadinessCheck::UnixSocket { path: "/s".to_string() };
    assert!(matches!(
        ready_wait(&config, component(&config), true, false, 14_999),
        ReadyWait::Again(100)
    ));
    assert!(matches!(
        ready_wait(&config, component(&config), true, false, 15_000),
        ReadyWait::Failed(t) if t == "timed out waiting for component dummy readiness"
    ));
    assert!(matches!(
        ready_wait(&config, component(&config), true, true, 15_000),
        ReadyWait::Ready
    ));
}

#[test]
fn sessions_are_started_component_by_component() {
    let manager = SessionManager::new(test_config());
    let options = EnsureOptions {
        force_restart: false,
        requested_size: Some(SessionSize { width: 800, height: 600 }),
        client_peer: Some("10.0.0.1:5".to_string()),
    };
    let (run, action) = manager.ensure(options);
    assert_eq!(action, EnsureAction::Inspect);
    let absent = manager.status(None, &vec![]);
    assert_eq!(absent.health, SessionHealth::Missing);
    let mut run = run;
    let mut event = EnsureEvent::Inspected(absent);
    let mut actions = Vec::new();
    let mut ids: Vec<String> = Vec::new();
    loop {
        match manager.step(run, event, NOW) {
            EnsureStep::Continue(next, action) => {
                actions.push(action);
                event = match action {
                    EnsureAction::Clean => EnsureEvent::Cleaned,
                    EnsureAction::Spawn(0) => EnsureEvent::Spawned { pid: 77 },
                    EnsureAction::Record => EnsureEvent::Recorded,
                    EnsureAction::Await(0) => EnsureEvent::Ready,
                    EnsureAction::Rest(_) => EnsureEvent::Rested,
                    EnsureAction::Inspect => {
                        let state = SessionState::new(manager.config(), "id".to_string(), NOW);
                        EnsureEvent::Inspected(manager.status(Some(state), &vec![]))
                    }
                    other => panic!("unexpected {other:?}"),
                };
                if let Some(state) = next.state() {
                    ids.push(state.id.clone());
                }
                run = next;
            }
            EnsureStep::Done(result) => {
                assert!(!result.reused_existing);
                assert_eq!(result.status.health, SessionHealth::Healthy);
                break;
            }
            EnsureStep::Failed(e) => panic!("{e}"),
        }
    }
    assert_eq!(actions[0], EnsureAction::Clean);
    assert!(actions.contains(&EnsureAction::Spawn(0)));
    assert!(actions.contains(&EnsureAction::Await(0)));
    assert_eq!(actions.last(), Some(&EnsureAction::Inspect));
    let id = uuid::Uuid::parse_str(&ids[0]).unwrap();
    assert_eq!(id.get_version_num(), 4);
    assert!(ids.iter().all(|other| *other == id.to_string()));
}

#[test]
fn sessions_begin_under_their_identifier() {
    let manager = SessionManager::new(test_config());
    let options = EnsureOptions {
        force_restart: false,
        requested_size: None,
        client_peer: Some("peer".to_string()),
    };
    match manager.begin_session(options, "an-id".to_string(), NOW) {
        EnsureStep::Continue(run, EnsureAction::Spawn(0)) => {
            let state = run.state().unwrap();
            assert_eq!(state.id, "an-id");
            assert_eq!(state.last_client.as_ref().unwrap().peer, "peer");
            assert!(state.components.is_empty());
        }
        other => panic!("unexpected {other:?}"),
    }
}

fn running_state(manager: &SessionManager, pid: i32) -> SessionState {
    let mut state = SessionState::new(manager.config(), "id".to_string(), NOW);
    let component = lamco_rdp_server::sesman::session::started_component(
        &manager.config().components[0],
        pid,
        NOW,
    );
    state.components.push(component);
    state
}

#[test]
fn healthy_sessions_are_reused() {
    let manager = SessionManager::new(test_config());
    let (run, _) = manager.ensure(EnsureOptions::default());
    let healthy = manager.status(Some(running_state(&manager, 5)), &vec![true]);
    assert_eq!(healthy.health, SessionHealth::Healthy);
    match manager.step(run, EnsureEvent::Inspected(healthy), NOW) {
        EnsureStep::Continue(_, action) => assert_eq!(action, EnsureAction::Record),
        _ => panic!("the entry is written first"),
    }
    let dead = manager.status(Some(running_state(&manager, 5)), &vec![false]);
    assert_eq!(dead.health, SessionHealth::Dead);
    assert_eq!(dead.dead_components, vec!["dummy"]);
    assert!(!keep_watching(&dead));
    let (run, _) = manager.ensure(EnsureOptions::default());
    match manager.step(run, EnsureEvent::Inspected(dead), NOW) {
        EnsureStep::Continue(_, action) => assert_eq!(action, EnsureAction::Stop),
        _ => panic!("the dead session is stopped first"),
    }
}

#[test]
fn stopping_asks_before_it_kills() {
    let manager = SessionManager::new(test_config());
    let (run, first) = manager.stop();
    assert!(matches!(first, StopAction::Inspect));
    let status = manager.status(Some(running_state(&manager, 5)), &vec![true]);
    let StopStep::Continue(run, StopAction::Probe) =
        manager.stop_step(run, StopEvent::Inspected(status))
    else {
        panic!("the processes are looked at")
    };
    let probed = StopEvent::Probed { alive: vec![true], waited_ms: 0 };
    let StopStep::Continue(run, StopAction::Terminate(pids)) = manager.stop_step(run, probed)
    else {
        panic!("the processes are asked to end")
    };
    assert_eq!(pids, vec![5]);
    let StopStep::Continue(run, StopAction::Probe) = manager.stop_step(run, StopEvent::Signalled)
    else {
        panic!("the processes are looked at again")
    };
    let waiting = StopEvent::Probed { alive: vec![true], waited_ms: 9_999 };
    let StopStep::Continue(run, StopAction::ProbeAfter(100)) = manager.stop_step(run, waiting)
    else {
        panic!("they get time")
    };
    let late = StopEvent::Probed { alive: vec![true], waited_ms: 10_000 };
    let StopStep::Continue(run, StopAction::Kill(pids)) = manager.stop_step(run, late) else {
        panic!("time is up")
    };
    assert_eq!(pids, vec![5]);
    let StopStep::Continue(run, StopAction::RemoveEntry) =
        manager.stop_step(run, StopEvent::Signalled)
    else {
        panic!("the entry goes")
    };
    let StopStep::Continue(run, StopAction::Clean) = manager.stop_step(run, StopEvent::Removed)
    else {
        panic!("leftovers go")
    };
    assert!(matches!(manager.stop_step(run, StopEvent::Cleaned), StopStep::Done));
    let (run, _) = manager.stop();
    let absent = manager.status(None, &vec![]);
    assert!(matches!(
        manager.stop_step(run, StopEvent::Inspected(absent)),
        StopStep::Done
    ));
}

#[test]
fn locks_of_gone_processes_are_replaced() {
    assert_eq!(lock_owner(" 42\n"), Some(42));
    assert_eq!(lock_owner("x"), None);
    assert!(stale_lock(None, true));
    assert!(stale_lock(Some(4), false));
    assert!(!stale_lock(Some(4), true));
    assert!(matches!(lock_decision("/l", Some(4), false), LockDecision::Replace));
    assert!(matches!(
        lock_decision("/l", Some(4), true),
        LockDecision::Refuse(e) if e == "session is already locked: /l"
    ));
}

#[test]
fn cleanup_patterns_split_at_the_star() {
    match cleanup_simple_glob("/run/user/1000/wayland-*.lock") {
        Cleanup::Matching { dir, prefix, suffix } => {
            assert_eq!(dir, "/run/user/1000");
            assert_eq!(prefix, "wayland-");
            assert_eq!(suffix, ".lock");
        }
        _ => panic!("a pattern"),
    }
    assert!(matches!(cleanup_simple_glob("/a/b"), Cleanup::File(p) if p == "/a/b"));
    assert!(matches!(cleanup_simple_glob("*"), Cleanup::Nothing));
    assert!(matches!(
        cleanup_simple_glob("x*"),
        Cleanup::Matching { dir, prefix, .. } if dir.is_empty() && prefix == "x"
    ));
    assert!(matches_glob("wayland-1.lock", "wayland-", ".lock"));
    assert!(!matches_glob("wayland-1", "wayland-", ".lock"));
}

#[test]
fn commands_become_requests() {
    let request = || ClientRequest {
        width: Some(800),
        height: Some(600),
        client: Some("c".to_string()),
    };
    let start = ensure_options(SesmanCommand::Start(request())).unwrap();
    assert!(start.force_restart);
    assert_eq!(start.requested_size, Some(SessionSize { width: 800, height: 600 }));
    assert_eq!(start.client_peer.as_deref(), Some("c"));
    let reconnect = ensure_options(SesmanCommand::Reconnect(request())).unwrap();
    assert!(!reconnect.force_restart);
    assert!(ensure_options(SesmanCommand::Status).is_none());
    assert_eq!(requested_size(Some(1), None), None);
    assert_eq!(poll_interval(0), 1);
    assert_eq!(poll_interval(9), 9);
    assert_eq!(log_level(0), LogLevel::Warn);
    assert_eq!(log_level(1), LogLevel::Info);
    assert_eq!(log_level(7), LogLevel::Debug);
}
