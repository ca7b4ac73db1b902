use nine_router_bootstrap::health::{
    endpoint_text, HealthAction, HealthEvent, HealthMonitor, ReadinessWait, Stage,
};
use nine_router_bootstrap::paths::join_path;
use nine_router_bootstrap::process::{
    choose_node, first_found, listening_pids, node_fallback_candidates, signal_target, lsof_args, pid_file_path, pid_from_file_contents, pids_in_lsof_text,
    ProcessManager, DEFAULT_PORT,
};
use nine_router_bootstrap::retry::RetryPolicy;
use nine_router_bootstrap::service::ServiceManager;
use nine_router_bootstrap::supervisor::{Phase, Supervisor, SupervisorAction, SupervisorEvent};
use nine_router_bootstrap::text::{chars_of, is_white_space, push_decimal, split_white_space};
use nine_router_bootstrap::BootstrapError;

const SECOND_NS: u128 = 1_000_000_000;

#[test]
fn backoff_doubles_from_the_initial_delay_up_to_thirty_seconds() {
    let mut policy = RetryPolicy::new(10, 1000);
    let delays: Vec<u64> = (0..8).map(|_| policy.next_delay()).collect();
    assert_eq!(delays, vec![1000, 2000, 4000, 8000, 16000, 30000, 30000, 30000]);
    assert_eq!(policy.current_attempt(), 8);
}

#[test]
fn backoff_starts_at_the_cap_for_long_initial_delays() {
    let mut policy = RetryPolicy::new(2, 45_000);
    assert_eq!(policy.next_delay(), 30_000);
    let mut zero = RetryPolicy::new(2, 0);
    assert_eq!(zero.next_delay(), 0);
    assert_eq!(zero.next_delay(), 0);
}

#[test]
fn retry_policy_counts_past_its_budget() {
    let mut policy = RetryPolicy::new(0, 250);
    assert!(!policy.should_retry());
    assert_eq!(policy.next_delay(), 250);
    assert_eq!(policy.current_attempt(), 1);
    assert_eq!(policy.initial_delay_ms(), 250);
}

#[test]
fn white_space_follows_unicode() {
    for c in [' ', '\t', '\n', '\r', '\u{0B}', '\u{0C}', '\u{85}', '\u{A0}', '\u{2003}', '\u{3000}'] {
        assert!(is_white_space(c), "{:?}", c);
        assert_eq!(is_white_space(c), c.is_whitespace());
    }
    for c in ['a', '0', '-', '\u{200B}', '\u{180E}'] {
        assert!(!is_white_space(c), "{:?}", c);
        assert_eq!(is_white_space(c), c.is_whitespace());
    }
}

#[test]
fn splitting_matches_split_whitespace() {
    for s in [
        "--dns-result-order=ipv4first --max-old-space-size=6144",
        "",
        "   ",
        "  a  b\tc\n",
        "one",
        "\u{3000}x\u{A0}y ",
    ] {
        let expected: Vec<String> = s.split_whitespace().map(|w| w.to_string()).collect();
        assert_eq!(split_white_space(s), expected, "{:?}", s);
    }
    assert_eq!(chars_of("héllo"), vec!['h', 'é', 'l', 'l', 'o']);
}

#[test]
fn decimal_text_is_written() {
    let mut s = String::from("port ");
    push_decimal(&mut s, 0);
    assert_eq!(s, "port 0");
    let mut t = String::new();
    push_decimal(&mut t, 18_446_744_073_709_551_615);
    assert_eq!(t, "18446744073709551615");
}

#[test]
fn spawn_args_put_node_options_before_the_script() {
    let manager = ProcessManager::new(
        "/usr/bin/node".to_string(),
        "--dns-result-order=ipv4first  --max-old-space-size=6144".to_string(),
        "/path/to/server.js".to_string(),
        vec!["--tray".to_string(), "--skip-update".to_string()],
    );
    assert_eq!(
        manager.spawn_args(),
        vec![
            "--dns-result-order=ipv4first",
            "--max-old-space-size=6144",
            "/path/to/server.js",
            "--tray",
            "--skip-update"
        ]
    );
    let bare = ProcessManager::new(String::new(), String::new(), "s.js".to_string(), Vec::new());
    assert_eq!(bare.spawn_args(), vec!["s.js"]);
}

#[test]
fn pid_files_are_read_like_u32_from_str() {
    assert_eq!(pid_from_file_contents("4242\n"), Ok(4242));
    assert_eq!(pid_from_file_contents("  +17 "), Ok(17));
    assert_eq!(pid_from_file_contents("4294967295"), Ok(4_294_967_295));
    assert_eq!(pid_from_file_contents("4294967296"), Err(BootstrapError::InvalidPidFile));
    assert_eq!(pid_from_file_contents(""), Err(BootstrapError::InvalidPidFile));
    assert_eq!(pid_from_file_contents("+"), Err(BootstrapError::InvalidPidFile));
    assert_eq!(pid_from_file_contents("-1"), Err(BootstrapError::InvalidPidFile));
    assert_eq!(pid_from_file_contents("12 34"), Err(BootstrapError::InvalidPidFile));
    for s in ["0", "007", " 9 ", "+0", "99999999999", "1a", "\u{3000}5"] {
        let expected = s.trim().parse::<u32>().ok();
        assert_eq!(pid_from_file_contents(s).ok(), expected, "{:?}", s);
    }
}

#[test]
fn lsof_output_yields_its_pids() {
    assert_eq!(pids_in_lsof_text("123\n456\n"), vec![123, 456]);
    assert_eq!(pids_in_lsof_text(" 7 \r\n\nabc\n8"), vec![7, 8]);
    assert_eq!(pids_in_lsof_text(""), Vec::<u32>::new());
    assert_eq!(listening_pids(b"12\xff\n34\n"), vec![34]);
    assert_eq!(listening_pids(b"55\n"), vec![55]);
}

#[test]
fn lsof_is_asked_for_listeners_on_the_port() {
    assert_eq!(lsof_args(DEFAULT_PORT), vec!["-sTCP:LISTEN", "-ti", "tcp:20128"]);
    assert_eq!(lsof_args(0), vec!["-sTCP:LISTEN", "-ti", "tcp:0"]);
}

#[test]
fn paths_are_joined_like_pathbuf() {
    assert_eq!(join_path("/home/a", "b"), "/home/a/b");
    assert_eq!(join_path("/home/a/", "b"), "/home/a/b");
    assert_eq!(join_path("", "b"), "b");
    assert_eq!(join_path("/home/a", "/etc"), "/etc");
    assert_eq!(pid_file_path("/home/alice"), "/home/alice/.9router/server.pid");
}

#[test]
fn endpoint_is_host_colon_port() {
    assert_eq!(endpoint_text("127.0.0.1", 20128), "127.0.0.1:20128");
    assert_eq!(endpoint_text("localhost", 0), "localhost:0");
}

#[test]
fn server_script_candidates_follow_the_install_locations() {
    assert_eq!(
        ServiceManager::server_script_candidates("/home/alice"),
        vec![
            "/home/alice/.9router/cli.js",
            "/home/alice/.9router/app/custom-server.js",
            "/usr/local/lib/node_modules/9router/cli.js",
            "/usr/lib/node_modules/9router/cli.js",
            "/home/alice/.npm-global/lib/node_modules/9router/cli.js",
        ]
    );
    assert_eq!(
        ServiceManager::systemd_unit_path("/home/alice"),
        "/home/alice/.config/systemd/user/9router-bootstrap.service"
    );
    assert_eq!(ServiceManager::systemd_unit_dir("/home/alice"), "/home/alice/.config/systemd/user");
    assert_eq!(
        ServiceManager::launchd_plist_path("/Users/al"),
        "/Users/al/Library/LaunchAgents/com.9router.bootstrap.plist"
    );
}

#[test]
fn systemd_unit_runs_start_after_the_network() {
    let unit = ServiceManager::systemd_unit("/opt/bin/nine-router-bootstrap", "/srv/cli.js");
    assert!(unit.starts_with("[Unit]\nDescription=9Router Bootstrap Service\n"));
    assert!(unit.contains("After=network-online.target\nWants=network-online.target\n"));
    assert!(unit.contains("\nExecStart=/opt/bin/nine-router-bootstrap start /srv/cli.js\nRestart=always\nRestartSec=10\n"));
    assert!(unit.ends_with("[Install]\nWantedBy=default.target\n"));
}

#[test]
fn launchd_plist_keeps_the_agent_alive() {
    let plist = ServiceManager::launchd_plist("/b/boot", "/s/cli.js", "/Users/al");
    assert!(plist.starts_with("<?xml version=\"1.0\" encoding=\"UTF-8\"?>\n"));
    assert!(plist.contains("<string>/b/boot</string>\n        <string>start</string>\n        <string>/s/cli.js</string>"));
    assert!(plist.contains("<key>RunAtLoad</key>\n    <true/>\n    <key>KeepAlive</key>\n    <true/>"));
    assert!(plist.contains("<string>/Users/al/Library/Logs/9router-bootstrap.log</string>"));
    assert!(plist.contains("<string>/Users/al/Library/Logs/9router-bootstrap-error.log</string>"));
    assert!(plist.ends_with("</dict>\n</plist>"));
}

#[test]
fn for_start_keeps_a_given_node_and_rejects_a_missing_script() {
    let missing = ProcessManager::for_start(
        "/nonexistent/path/to/server.js".to_string(),
        Vec::new(),
        Some("/usr/bin/node".to_string()),
        String::new(),
    );
    assert_eq!(missing.err(), Some(BootstrapError::ServerScriptMissing));
    let ok = ProcessManager::for_start(
        "/".to_string(),
        vec!["--tray".to_string()],
        Some("/custom/node".to_string()),
        "--a".to_string(),
    )
    .ok()
    .expect("an existing path is accepted");
    assert_eq!(ok.node_path, "/custom/node");
    assert_eq!(ok.spawn_args(), vec!["--a", "/", "--tray"]);
}

#[test]
fn find_node_gives_a_path_not_just_the_name() {
    let found = ProcessManager::find_node().expect("node is installed here");
    assert!(found.ends_with("node"));
    assert!(found.contains('/'));
}

#[test]
fn readiness_probes_every_half_second_until_the_timeout() {
    let (mut w, first) = ReadinessWait::start(10 * SECOND_NS, 30 * SECOND_NS);
    assert_eq!(first, HealthAction::Sleep { ms: 0 });
    assert_eq!(w.step(HealthEvent::Woke { now_ns: 10 * SECOND_NS }), HealthAction::Probe { timeout_ms: 2000 });
    assert_eq!(w.step(HealthEvent::Probed { healthy: false }), HealthAction::Sleep { ms: 500 });
    assert_eq!(w.step(HealthEvent::Woke { now_ns: 40 * SECOND_NS }), HealthAction::Probe { timeout_ms: 2000 });
    assert_eq!(w.step(HealthEvent::Probed { healthy: false }), HealthAction::Sleep { ms: 500 });
    assert_eq!(w.step(HealthEvent::Woke { now_ns: 40 * SECOND_NS + 1 }), HealthAction::Failed);
    assert_eq!(w.stage, Stage::Done);
    assert_eq!(w.step(HealthEvent::Probed { healthy: true }), HealthAction::Failed);

    let (mut up, _) = ReadinessWait::start(0, 30 * SECOND_NS);
    assert_eq!(up.step(HealthEvent::Probed { healthy: true }), HealthAction::Sleep { ms: 0 });
    assert_eq!(up.step(HealthEvent::Woke { now_ns: 5 }), HealthAction::Probe { timeout_ms: 2000 });
    assert_eq!(up.step(HealthEvent::Probed { healthy: true }), HealthAction::Ready);

    let (mut zero, _) = ReadinessWait::start(7, 0);
    assert_eq!(zero.step(HealthEvent::Woke { now_ns: 8 }), HealthAction::Failed);
}

#[test]
fn monitor_probes_every_interval_until_silence() {
    let (mut m, first) = HealthMonitor::start(5000);
    assert_eq!(first, HealthAction::Sleep { ms: 5000 });
    assert_eq!(m.step(HealthEvent::Woke { now_ns: 1 }), HealthAction::Probe { timeout_ms: 2000 });
    assert_eq!(m.step(HealthEvent::Probed { healthy: true }), HealthAction::Sleep { ms: 5000 });
    assert_eq!(m.step(HealthEvent::Woke { now_ns: 2 }), HealthAction::Probe { timeout_ms: 2000 });
    assert_eq!(m.step(HealthEvent::Probed { healthy: false }), HealthAction::Failed);
}

#[test]
fn supervisor_gives_up_after_the_restart_budget() {
    let (mut s, first) = Supervisor::new(3, 1000);
    assert_eq!(first, SupervisorAction::Kill);
    assert_eq!(s.step(SupervisorEvent::Killed), SupervisorAction::Spawn { attempt: 1 });
    let mut delays = Vec::new();
    let mut action = s.step(SupervisorEvent::SpawnFailed);
    while let SupervisorAction::Sleep { ms } = action {
        delays.push(ms);
        let next = s.step(SupervisorEvent::Woke { now_ns: 0 });
        assert_eq!(next, SupervisorAction::Spawn { attempt: s.attempt() });
        action = s.step(SupervisorEvent::SpawnFailed);
    }
    assert_eq!(delays, vec![1000, 2000, 4000]);
    assert_eq!(action, SupervisorAction::Exit { code: 1 });
    assert_eq!(s.attempt(), 4);
    assert_eq!(s.step(SupervisorEvent::Killed), SupervisorAction::Exit { code: 1 });
}

#[test]
fn supervisor_watches_a_server_that_comes_up_and_restarts_it_when_it_dies() {
    let (mut s, _) = Supervisor::new(2, 500);
    assert_eq!(s.step(SupervisorEvent::Killed), SupervisorAction::Spawn { attempt: 1 });
    assert_eq!(s.step(SupervisorEvent::SpawnFailed), SupervisorAction::Sleep { ms: 500 });
    assert_eq!(s.retry_policy().current_attempt(), 1);
    assert_eq!(s.step(SupervisorEvent::Woke { now_ns: 0 }), SupervisorAction::Spawn { attempt: 2 });
    assert_eq!(s.step(SupervisorEvent::Spawned { now_ns: 0 }), SupervisorAction::Sleep { ms: 0 });
    assert_eq!(s.step(SupervisorEvent::Woke { now_ns: 1 }), SupervisorAction::Probe { timeout_ms: 2000 });
    assert_eq!(s.step(SupervisorEvent::Probed { healthy: false }), SupervisorAction::Sleep { ms: 500 });
    assert_eq!(s.step(SupervisorEvent::Woke { now_ns: SECOND_NS }), SupervisorAction::Probe { timeout_ms: 2000 });
    assert_eq!(s.step(SupervisorEvent::Probed { healthy: true }), SupervisorAction::Sleep { ms: 5000 });
    assert_eq!(s.retry_policy().current_attempt(), 0);
    assert_eq!(s.step(SupervisorEvent::Woke { now_ns: 6 * SECOND_NS }), SupervisorAction::Probe { timeout_ms: 2000 });
    assert_eq!(s.step(SupervisorEvent::Probed { healthy: true }), SupervisorAction::Sleep { ms: 5000 });
    assert_eq!(s.step(SupervisorEvent::Woke { now_ns: 11 * SECOND_NS }), SupervisorAction::Probe { timeout_ms: 2000 });
    assert_eq!(s.step(SupervisorEvent::Probed { healthy: false }), SupervisorAction::Kill);
    assert_eq!(s.step(SupervisorEvent::Killed), SupervisorAction::Sleep { ms: 500 });
    assert_eq!(s.step(SupervisorEvent::Woke { now_ns: 12 * SECOND_NS }), SupervisorAction::Spawn { attempt: 3 });
}

#[test]
fn supervisor_stops_a_server_that_does_not_come_up_in_time() {
    let (mut s, _) = Supervisor::new(1, 1000);
    assert_eq!(s.step(SupervisorEvent::Killed), SupervisorAction::Spawn { attempt: 1 });
    assert_eq!(s.step(SupervisorEvent::Spawned { now_ns: 100 }), SupervisorAction::Sleep { ms: 0 });
    assert_eq!(s.step(SupervisorEvent::Woke { now_ns: 100 }), SupervisorAction::Probe { timeout_ms: 2000 });
    assert_eq!(s.step(SupervisorEvent::Probed { healthy: false }), SupervisorAction::Sleep { ms: 500 });
    assert_eq!(s.step(SupervisorEvent::Woke { now_ns: 100 + 30 * SECOND_NS }), SupervisorAction::Probe { timeout_ms: 2000 });
    assert_eq!(s.step(SupervisorEvent::Probed { healthy: false }), SupervisorAction::Sleep { ms: 500 });
    assert_eq!(s.step(SupervisorEvent::Woke { now_ns: 101 + 30 * SECOND_NS }), SupervisorAction::Kill);
    assert_eq!(s.step(SupervisorEvent::Killed), SupervisorAction::Sleep { ms: 1000 });
    assert_eq!(s.step(SupervisorEvent::Woke { now_ns: 0 }), SupervisorAction::Spawn { attempt: 2 });
    assert_eq!(s.step(SupervisorEvent::SpawnFailed), SupervisorAction::Exit { code: 1 });
}

#[test]
fn supervisor_shuts_down_on_a_signal() {
    let (mut s, _) = Supervisor::new(3, 1000);
    assert_eq!(s.step(SupervisorEvent::Killed), SupervisorAction::Spawn { attempt: 1 });
    assert_eq!(s.step(SupervisorEvent::Spawned { now_ns: 0 }), SupervisorAction::Sleep { ms: 0 });
    assert_eq!(s.step(SupervisorEvent::ShutdownRequested), SupervisorAction::Kill);
    assert_eq!(s.step(SupervisorEvent::Probed { healthy: true }), SupervisorAction::Kill);
    assert_eq!(s.step(SupervisorEvent::Killed), SupervisorAction::Exit { code: 0 });

    let (mut t, _) = Supervisor::new(3, 1000);
    assert_eq!(t.step(SupervisorEvent::Killed), SupervisorAction::Spawn { attempt: 1 });
    assert_eq!(t.step(SupervisorEvent::SpawnFailed), SupervisorAction::Sleep { ms: 1000 });
    assert_eq!(t.step(SupervisorEvent::ShutdownRequested), SupervisorAction::Exit { code: 0 });
    assert_eq!(t.step(SupervisorEvent::Woke { now_ns: 0 }), SupervisorAction::Exit { code: 0 });
    let (mut u, _) = Supervisor::new(3, 1000);
    assert_eq!(u.phase(), Phase::ClearingPort);
    assert_eq!(u.step(SupervisorEvent::ShutdownRequested), SupervisorAction::Kill);
    assert_eq!(u.step(SupervisorEvent::Killed), SupervisorAction::Exit { code: 0 });
}

#[test]
fn a_listener_already_on_the_port_is_stopped_before_the_first_launch() {
    let (mut s, first) = Supervisor::new(3, 1000);
    assert_eq!(first, SupervisorAction::Kill);
    assert_eq!(s.step(SupervisorEvent::Probed { healthy: true }), SupervisorAction::Kill);
    assert_eq!(s.phase(), Phase::ClearingPort);
    assert_eq!(s.step(SupervisorEvent::Killed), SupervisorAction::Spawn { attempt: 1 });
    assert_eq!(s.phase(), Phase::Launching);
}

#[test]
fn first_found_skips_walk_errors() {
    assert_eq!(first_found(&vec![None, Some("/usr/bin/node".to_string()), Some("/x".to_string())]), Some("/usr/bin/node".to_string()));
    assert_eq!(first_found(&vec![None, None]), None);
    assert_eq!(first_found(&Vec::new()), None);
}

#[test]
fn node_is_taken_from_path_first_then_the_install_locations_in_order() {
    assert_eq!(
        node_fallback_candidates(),
        vec!["/usr/local/bin/node", "/usr/bin/node", "/opt/nodejs/bin/node"]
    );
    assert_eq!(
        choose_node(Some("/home/u/bin/node".to_string()), &vec![Some("/usr/local/bin/node".to_string())]),
        Ok("/home/u/bin/node".to_string())
    );
    assert_eq!(
        choose_node(None, &vec![None, Some("/usr/bin/node".to_string())]),
        Ok("/usr/bin/node".to_string())
    );
    assert_eq!(choose_node(None, &vec![None, None, None]), Err(BootstrapError::NodeNotFound));
}

#[test]
fn the_first_existing_install_location_wins() {
    let candidates = ServiceManager::server_script_candidates("/home/u");
    assert_eq!(
        ServiceManager::first_existing(&candidates, &vec![false, true, false, true, true]),
        Some("/home/u/.9router/app/custom-server.js".to_string())
    );
    assert_eq!(ServiceManager::first_existing(&candidates, &vec![false; 5]), None);
    assert_eq!(ServiceManager::first_existing(&candidates, &Vec::new()), None);
}

#[test]
fn start_is_settled_by_node_then_script() {
    let plan = |node: Result<String, BootstrapError>, exists: bool| {
        ProcessManager::launch_plan(node, exists, "/s.js".to_string(), vec!["--x".to_string()], "--a".to_string())
    };
    assert_eq!(plan(Err(BootstrapError::NodeNotFound), false).err(), Some(BootstrapError::NodeNotFound));
    assert_eq!(plan(Ok("/n".to_string()), false).err(), Some(BootstrapError::ServerScriptMissing));
    let m = plan(Ok("/n".to_string()), true).ok().expect("both present");
    assert_eq!(m.node_path, "/n");
    assert_eq!(m.server_path, "/s.js");
    assert_eq!(m.node_args, "--a");
    assert_eq!(m.server_args, vec!["--x"]);
}

#[test]
fn only_single_processes_are_signalled() {
    assert_eq!(signal_target(0), None);
    assert_eq!(signal_target(1), Some(1));
    assert_eq!(signal_target(4242), Some(4242));
    assert_eq!(signal_target(2_147_483_647), Some(2_147_483_647));
    assert_eq!(signal_target(2_147_483_648), None);
    assert_eq!(signal_target(4_294_967_295), None);
}
