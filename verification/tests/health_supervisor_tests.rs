use tavern_supervisor::health::{health_step, poll_outcome, ProbeStep, HEALTH_ATTEMPTS};
use tavern_supervisor::supervisor::{augment_server_args, daily_log_name, escalation_action, health_failure_message, health_url, initial_term_action, install_decision, log_file_name, node_env_overrides, ready_message, server_env_overrides, SupervisorState, TermAction, GRACEFUL_WAIT_SECS};

#[test]
fn forced_start_bypasses_a_required_install() {
    assert_eq!(install_decision(false, false), (false, None));
    assert_eq!(install_decision(false, true), (false, None));
    assert_eq!(install_decision(true, false), (true, None));
    assert_eq!(
        install_decision(true, true),
        (
            false,
            Some(String::from(
                "Skipping npm install after previous failure at user request."
            ))
        )
    );
}

#[test]
fn fifth_probe_success_takes_exactly_five_attempts() {
    let mut outcomes = vec![false; HEALTH_ATTEMPTS as usize];
    outcomes[4] = true;
    assert_eq!(poll_outcome(&outcomes), (true, 5));
}

#[test]
fn immediate_success_takes_one_attempt() {
    let outcomes = vec![true; HEALTH_ATTEMPTS as usize];
    assert_eq!(poll_outcome(&outcomes), (true, 1));
}

#[test]
fn exhausted_budget_reports_unhealthy_after_thirty() {
    let outcomes = vec![false; HEALTH_ATTEMPTS as usize];
    assert_eq!(poll_outcome(&outcomes), (false, 30));
}

#[test]
fn success_on_the_last_probe_counts() {
    let mut outcomes = vec![false; HEALTH_ATTEMPTS as usize];
    outcomes[29] = true;
    assert_eq!(poll_outcome(&outcomes), (true, 30));
}

#[test]
fn delays_increase_monotonically() {
    let mut last: u64 = 0;
    for i in 0..HEALTH_ATTEMPTS - 1 {
        match health_step(i, false) {
            ProbeStep::RetryAfter(d) => {
                assert_eq!(d, 500 + i * 100);
                assert!(d >= last);
                last = d;
            },
            _ => panic!("a failing probe within the budget retries"),
        }
    }
    assert!(matches!(health_step(HEALTH_ATTEMPTS - 1, false), ProbeStep::GiveUp));
    assert!(matches!(health_step(0, true), ProbeStep::Ready));
}

#[test]
fn stop_with_no_tracked_process_is_harmless_twice() {
    let mut s = SupervisorState::new();
    assert!(!s.is_running());
    let (child, job) = s.take_for_shutdown();
    assert!(child.is_none());
    assert!(job.is_none());
    let (child, job) = s.take_for_shutdown();
    assert!(child.is_none());
    assert!(job.is_none());
    assert!(!s.is_running());
}

#[test]
fn start_refusal_refuses_nothing_when_idle() {
    let s = SupervisorState::new();
    assert!(s.start_refusal().is_none());
}

#[test]
fn lingering_job_handle_is_released_by_shutdown() {
    let mut s = SupervisorState::new();
    s.set_job(42);
    let (child, job) = s.take_for_shutdown();
    assert!(child.is_none());
    assert_eq!(job, Some(42));
    let (_, job) = s.take_for_shutdown();
    assert_eq!(job, None);
}

#[test]
fn listen_flags_are_injected_when_absent() {
    let args = augment_server_args(Vec::new(), "127.0.0.1", 8000);
    let args: Vec<&str> = args.iter().map(|s| s.as_str()).collect();
    assert_eq!(
        args,
        vec![
            "--listen",
            "true",
            "--listen-host",
            "127.0.0.1",
            "--listen-port",
            "8000",
            "--no-open",
        ]
    );
}

#[test]
fn caller_supplied_flags_always_win() {
    let extra = vec![
        String::from("--listen-port"),
        String::from("9999"),
        String::from("--verbose"),
    ];
    let args = augment_server_args(extra, "0.0.0.0", 8000);
    let args: Vec<&str> = args.iter().map(|s| s.as_str()).collect();
    assert_eq!(
        args,
        vec![
            "--listen-port",
            "9999",
            "--verbose",
            "--listen",
            "true",
            "--listen-host",
            "0.0.0.0",
            "--no-open",
        ]
    );
}

#[test]
fn spawn_environment_is_non_interactive_with_port() {
    let env = node_env_overrides();
    let env: Vec<(&str, &str)> = env.iter().map(|p| (p.0.as_str(), p.1.as_str())).collect();
    assert_eq!(
        env,
        vec![("NODE_ENV", "production"), ("NO_BROWSER", "1"), ("BROWSER", "none")]
    );
    let env = server_env_overrides(5173);
    let env: Vec<(&str, &str)> = env.iter().map(|p| (p.0.as_str(), p.1.as_str())).collect();
    assert_eq!(
        env,
        vec![
            ("NODE_ENV", "production"),
            ("NO_BROWSER", "1"),
            ("BROWSER", "none"),
            ("PORT", "5173"),
            ("ST_PORT", "5173"),
        ]
    );
}

#[test]
fn log_names_follow_the_date() {
    assert_eq!(log_file_name("20260101"), "server-20260101.log");
    let name = daily_log_name();
    assert!(name.starts_with("server-"));
    assert!(name.ends_with(".log"));
    assert!(name.len() >= 19);
}

#[test]
fn health_urls_and_messages_are_exact() {
    assert_eq!(health_url("127.0.0.1", 8000), "http://127.0.0.1:8000/");
    assert_eq!(
        ready_message("127.0.0.1", 8000),
        "WeylandTavern is now active on 127.0.0.1:8000 (By default)"
    );
    assert_eq!(
        health_failure_message("http://127.0.0.1:8000/"),
        "Failed to verify server health at http://127.0.0.1:8000/. Please check the logs."
    );
}

#[test]
fn teardown_escalates_only_on_timeout() {
    assert_eq!(GRACEFUL_WAIT_SECS, 10);
    assert!(matches!(initial_term_action(false, false, true), TermAction::GroupInterrupt));
    assert!(matches!(initial_term_action(false, false, false), TermAction::DirectKill));
    assert!(matches!(initial_term_action(true, true, true), TermAction::TerminateJob));
    assert!(matches!(initial_term_action(true, false, true), TermAction::DirectKill));
    assert!(escalation_action(true).is_none());
    assert!(matches!(escalation_action(false), Some(TermAction::GroupKill)));
}
