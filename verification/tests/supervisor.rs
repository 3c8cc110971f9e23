use backend_supervisor::errors::SupervisorError;
use backend_supervisor::guard::{LifecycleGuard, ProcessHandle};
use backend_supervisor::launch::{build_launch_plan, endpoint, u16_to_dec, DEFAULT_HOST, DEFAULT_PORT};
use backend_supervisor::paths::{join, parent_dir};
use backend_supervisor::prober::{wait_ready_trace, Prober, ReadinessTarget, POLL_INTERVAL_MS, READY_TIMEOUT_MS};
use backend_supervisor::session::{advance, settle_readiness, SessionAction, SessionEvent, SessionState};

#[test]
fn zero_timeout_returns_false_without_attempt() {
    let outcomes = vec![true, true];
    let r = wait_ready_trace(0, 150, &outcomes);
    assert!(!r.ready);
    assert_eq!(r.attempts, 0);
    assert_eq!(r.elapsed_ms, 0);
}

#[test]
fn negative_timeout_returns_false_without_attempt() {
    let outcomes = vec![true];
    let r = wait_ready_trace(-5000, 150, &outcomes);
    assert!(!r.ready);
    assert_eq!(r.attempts, 0);
    assert_eq!(r.elapsed_ms, 0);
}

#[test]
fn active_listener_succeeds_on_first_attempt_without_sleep() {
    let outcomes = vec![true];
    let r = wait_ready_trace(10_000, 150, &outcomes);
    assert!(r.ready);
    assert_eq!(r.attempts, 1);
    assert_eq!(r.elapsed_ms, 0);
}

#[test]
fn absent_listener_times_out_within_one_interval_of_deadline() {
    let outcomes: Vec<bool> = Vec::new();
    let r = wait_ready_trace(1000, 150, &outcomes);
    assert!(!r.ready);
    assert_eq!(r.attempts, 7);
    assert_eq!(r.elapsed_ms, 1050);
    assert!(1000 <= r.elapsed_ms && r.elapsed_ms < 1150);
}

#[test]
fn listener_opening_after_two_seconds_is_seen_in_time() {
    // The endpoint starts listening 2000 ms in: the attempts at
    // 0, 150, ..., 1950 ms fail, the one at 2100 ms connects.
    let mut outcomes = vec![false; 14];
    outcomes.push(true);
    let r = wait_ready_trace(5000, POLL_INTERVAL_MS, &outcomes);
    assert!(r.ready);
    assert_eq!(r.attempts, 15);
    assert_eq!(r.elapsed_ms, 2100);
    assert!(2000 <= r.elapsed_ms && r.elapsed_ms <= 2300);
}

#[test]
fn never_ready_backend_is_killed_after_timeout() {
    let outcomes: Vec<bool> = Vec::new();
    let r = wait_ready_trace(1000, 150, &outcomes);
    assert!(!r.ready);
    assert!(1000 <= r.elapsed_ms && r.elapsed_ms < 1150);
    // No guard is created; the handle comes back to be killed and reaped.
    let settled = settle_readiness(r.ready, ProcessHandle { id: 42 });
    match settled {
        Ok(_) => panic!("a timed-out backend must not be supervised"),
        Err((err, handle)) => {
            assert!(matches!(err, SupervisorError::Timeout));
            assert_eq!(handle.id, 42);
        }
    }
    // The session ends in failure and commands the cleanup.
    let (state, action) = advance(SessionState::Probing, SessionEvent::ProbeTimedOut);
    assert_eq!(state, SessionState::Failed);
    assert_eq!(action, SessionAction::KillAndReap);
}

#[test]
fn ready_backend_is_handed_to_a_guard() {
    let settled = settle_readiness(true, ProcessHandle { id: 7 });
    match settled {
        Ok(guard) => assert!(guard.is_armed()),
        Err(_) => panic!("a ready backend must be supervised"),
    }
}

#[test]
fn teardown_is_idempotent() {
    let mut guard = LifecycleGuard::acquire(ProcessHandle { id: 11 });
    assert!(guard.is_armed());
    let first = guard.teardown();
    match first {
        Some(handle) => assert_eq!(handle.id, 11),
        None => panic!("the first teardown must surrender the handle"),
    }
    assert!(!guard.is_armed());
    let second = guard.teardown();
    assert!(second.is_none(), "a second teardown must not surrender a handle again");
    assert!(!guard.is_armed());
}

#[test]
fn prober_window_arithmetic() {
    let prober = Prober::start(1_000_000, 10_000);
    assert!(prober.should_attempt(1_000_000));
    assert!(prober.should_attempt(1_009_999));
    assert!(!prober.should_attempt(1_010_000));
    let closed = Prober::start(1_000_000, 0);
    assert!(!closed.should_attempt(1_000_000));
    assert!(!closed.should_attempt(1_000_001));
}

#[test]
fn parent_dir_strips_the_last_component() {
    assert_eq!(parent_dir("a/b/c").as_deref(), Some("a/b"));
    assert_eq!(parent_dir("/opt/app/dist/main.js").as_deref(), Some("/opt/app/dist"));
    assert_eq!(parent_dir("/a").as_deref(), Some(""));
    assert_eq!(parent_dir("a/b/").as_deref(), Some("a/b"));
    assert_eq!(parent_dir("main.js"), None);
    assert_eq!(parent_dir(""), None);
}

#[test]
fn join_inserts_one_separator() {
    assert_eq!(join("/opt/app", "node_modules").as_str(), "/opt/app/node_modules");
    assert_eq!(join("", "x").as_str(), "/x");
}

#[test]
fn decimal_rendering_is_exact() {
    assert_eq!(u16_to_dec(0).as_str(), "0");
    assert_eq!(u16_to_dec(7).as_str(), "7");
    assert_eq!(u16_to_dec(10).as_str(), "10");
    assert_eq!(u16_to_dec(3000).as_str(), "3000");
    assert_eq!(u16_to_dec(65535).as_str(), "65535");
}

#[test]
fn launch_plan_for_a_nested_entry_script() {
    let plan = build_launch_plan("/opt/app/dist/main.js", "127.0.0.1", 3000)
        .expect("a nested entry script must resolve");
    assert_eq!(plan.program.as_str(), "node");
    let args: Vec<&str> = plan.args.iter().map(|a| a.as_str()).collect();
    assert_eq!(args, vec!["/opt/app/dist/main.js", "--hostname", "127.0.0.1", "--port", "3000"]);
    assert_eq!(plan.env_overrides.len(), 1);
    assert_eq!(plan.env_overrides[0].0.as_str(), "NODE_PATH");
    assert_eq!(plan.env_overrides[0].1.as_str(), "/opt/app/node_modules");
    assert_eq!(plan.working_dir.as_str(), "/opt/app");
}

#[test]
fn launch_plan_without_a_script_directory_is_refused() {
    let r = build_launch_plan("main.js", "127.0.0.1", 3000);
    match r {
        Ok(_) => panic!("a bare file name has no dist directory"),
        Err(e) => match e {
            SupervisorError::Resolution(m) => assert_eq!(m.as_str(), "dist directory not found"),
            _ => panic!("expected a resolution error"),
        },
    }
}

#[test]
fn launch_plan_without_a_resource_root_is_refused() {
    let r = build_launch_plan("dist/main.js", "127.0.0.1", 3000);
    match r {
        Ok(_) => panic!("a top-level dist directory has no resource root"),
        Err(e) => match e {
            SupervisorError::Resolution(m) => assert_eq!(m.as_str(), "resource root not found"),
            _ => panic!("expected a resolution error"),
        },
    }
}

#[test]
fn error_descriptions() {
    assert_eq!(
        SupervisorError::Timeout.describe().as_str(),
        "backend did not start within timeout"
    );
    assert_eq!(
        SupervisorError::Launch(String::from("spawn refused")).describe().as_str(),
        "spawn refused"
    );
}

#[test]
fn session_happy_path() {
    let (s1, a1) = advance(SessionState::NotStarted, SessionEvent::LaunchRequested);
    assert_eq!(s1, SessionState::Starting);
    assert_eq!(a1, SessionAction::SpawnBackend);
    let (s2, a2) = advance(s1, SessionEvent::SpawnSucceeded);
    assert_eq!(s2, SessionState::Probing);
    assert_eq!(a2, SessionAction::BeginProbing);
    let (s3, a3) = advance(s2, SessionEvent::BecameReady);
    assert_eq!(s3, SessionState::Ready);
    assert_eq!(a3, SessionAction::HandToGuard);
}

#[test]
fn session_spawn_failure_is_terminal() {
    let (s, a) = advance(SessionState::Starting, SessionEvent::SpawnFailed);
    assert_eq!(s, SessionState::Failed);
    assert_eq!(a, SessionAction::DoNothing);
    let (s2, a2) = advance(s, SessionEvent::LaunchRequested);
    assert_eq!(s2, SessionState::Failed);
    assert_eq!(a2, SessionAction::DoNothing);
}

#[test]
fn session_ready_state_absorbs_later_events() {
    let (s, a) = advance(SessionState::Ready, SessionEvent::ProbeTimedOut);
    assert_eq!(s, SessionState::Ready);
    assert_eq!(a, SessionAction::DoNothing);
}

#[test]
fn session_ignores_events_out_of_order() {
    let (s, a) = advance(SessionState::NotStarted, SessionEvent::BecameReady);
    assert_eq!(s, SessionState::NotStarted);
    assert_eq!(a, SessionAction::DoNothing);
}

#[test]
fn default_configuration_matches_the_backend() {
    assert_eq!(DEFAULT_HOST, "127.0.0.1");
    assert_eq!(DEFAULT_PORT, 3000);
    assert_eq!(READY_TIMEOUT_MS, 10_000);
    assert_eq!(POLL_INTERVAL_MS, 150);
    let plan = build_launch_plan("/opt/app/dist/main.js", DEFAULT_HOST, DEFAULT_PORT)
        .expect("the default endpoint must resolve");
    let args: Vec<&str> = plan.args.iter().map(|a| a.as_str()).collect();
    assert_eq!(args[1], "--hostname");
    assert_eq!(args[2], "127.0.0.1");
    assert_eq!(args[3], "--port");
    assert_eq!(args[4], "3000");
}

#[test]
fn readiness_target_opens_its_window() {
    let target = ReadinessTarget {
        host: String::from("127.0.0.1"),
        port: 9001,
        timeout_ms: 1000,
    };
    let prober = target.open_window(500);
    assert!(prober.should_attempt(1499));
    assert!(!prober.should_attempt(1500));
}

#[test]
fn endpoint_joins_host_and_port() {
    assert_eq!(endpoint("127.0.0.1", 3000).as_str(), "127.0.0.1:3000");
    assert_eq!(endpoint("localhost", 9001).as_str(), "localhost:9001");
}
