use tavern_supervisor::tool::{ensure_command_outcome, node_resolve_args, npm_candidates, npm_install_args, npm_install_outcome, LocateAction, LocateMachine, NpmTool, RunProbe};
use tavern_supervisor::update::CmdOutput;

fn out(ok: bool, stdout: &str, stderr: &str) -> CmdOutput {
    CmdOutput {
        ok,
        stdout: String::from(stdout),
        stderr: String::from(stderr),
    }
}

#[test]
fn candidates_match_the_platform() {
    let w: Vec<String> = npm_candidates(true);
    assert_eq!(w, vec!["npm.cmd", "npm"]);
    let u: Vec<String> = npm_candidates(false);
    assert_eq!(u, vec!["npm"]);
}

#[test]
fn a_running_override_is_taken_and_noted() {
    let (mut m, step) = LocateMachine::new(Some(String::from("/opt/npm")), npm_candidates(false));
    match step.action {
        LocateAction::Probe(b) => assert_eq!(b, "/opt/npm"),
        _ => panic!("the override is probed first"),
    }
    let step = m.on_probe_result(true);
    assert_eq!(step.logs[0], "Using npm from /opt/npm as configured via NPM_BIN.");
    match step.action {
        LocateAction::Done(Ok(NpmTool::Binary(b))) => assert_eq!(b, "/opt/npm"),
        _ => panic!("a running override becomes the tool"),
    }
}

#[test]
fn a_broken_override_fails_without_falling_through() {
    let (mut m, _) = LocateMachine::new(Some(String::from("/bad/npm")), npm_candidates(false));
    let step = m.on_probe_result(false);
    match step.action {
        LocateAction::Done(Err(msg)) => assert_eq!(
            msg,
            "Configured NPM_BIN at /bad/npm is not executable. Install npm or update NPM_BIN."
        ),
        _ => panic!("a misconfigured override is a hard error"),
    }
}

#[test]
fn candidates_are_probed_in_order_then_script_resolution() {
    let (mut m, step) = LocateMachine::new(None, npm_candidates(true));
    match step.action {
        LocateAction::Probe(b) => assert_eq!(b, "npm.cmd"),
        _ => panic!("candidates are probed"),
    }
    let step = m.on_probe_result(false);
    match step.action {
        LocateAction::Probe(b) => assert_eq!(b, "npm"),
        _ => panic!("the next candidate follows"),
    }
    let step = m.on_probe_result(false);
    assert_eq!(
        step.logs[0],
        "npm executable not found on PATH; attempting to use the npm-cli.js bundled with Node."
    );
    assert!(matches!(step.action, LocateAction::ResolveScript));
    let step = m.on_script_result(&out(true, "/usr/lib/node_modules/npm/bin/npm-cli.js\n", ""));
    assert_eq!(
        step.logs[0],
        "Resolved npm-cli.js at /usr/lib/node_modules/npm/bin/npm-cli.js. Falling back to running npm via node."
    );
    match step.action {
        LocateAction::Done(Ok(NpmTool::Script(p))) => {
            assert_eq!(p, "/usr/lib/node_modules/npm/bin/npm-cli.js")
        },
        _ => panic!("a resolved script becomes the tool"),
    }
}

#[test]
fn a_running_candidate_is_taken_silently() {
    let (mut m, _) = LocateMachine::new(Some(String::from("")), npm_candidates(false));
    let step = m.on_probe_result(true);
    assert!(step.logs.is_empty());
    match step.action {
        LocateAction::Done(Ok(NpmTool::Binary(b))) => assert_eq!(b, "npm"),
        _ => panic!("a running candidate becomes the tool"),
    }
}

#[test]
fn failed_script_resolution_is_actionable() {
    let (mut m, _) = LocateMachine::new(None, Vec::new());
    let step = m.on_script_result(&out(false, "", "Error: Cannot find module 'npm'\n"));
    match step.action {
        LocateAction::Done(Err(msg)) => assert_eq!(
            msg,
            "npm not found. Install Node.js (which includes npm) or set NPM_BIN to the npm executable path. Error: Cannot find module 'npm'"
        ),
        _ => panic!("an unresolved script is the final error"),
    }
}

#[test]
fn script_tool_is_invoked_through_node() {
    let (prog, args) = NpmTool::Script(String::from("/n/npm-cli.js")).into_invocation();
    assert_eq!(prog, "node");
    assert_eq!(args, vec!["/n/npm-cli.js"]);
    let (prog, args) = NpmTool::Binary(String::from("npm")).into_invocation();
    assert_eq!(prog, "npm");
    assert!(args.is_empty());
}

#[test]
fn node_resolve_invocation() {
    let args = node_resolve_args();
    assert_eq!(args, vec!["-p", "require.resolve('npm/bin/npm-cli.js')"]);
}

#[test]
fn ensure_command_classifies_probes() {
    assert_eq!(
        ensure_command_outcome("node", &RunProbe::Exited { success: true, code: Some(0) }),
        Ok(())
    );
    assert_eq!(
        ensure_command_outcome("node", &RunProbe::Exited { success: false, code: Some(127) }),
        Err(String::from("node --version exited with status 127"))
    );
    assert_eq!(
        ensure_command_outcome("node", &RunProbe::Exited { success: false, code: None }),
        Err(String::from("node --version failed"))
    );
    assert_eq!(
        ensure_command_outcome("node", &RunProbe::SpawnFailed(String::from("No such file"))),
        Err(String::from(
            "node not found. Install node and ensure it is on your PATH. (No such file)"
        ))
    );
}

#[test]
fn install_invocation_follows_mode_and_lock() {
    let (args, note) = npm_install_args("ci", true);
    let args: Vec<&str> = args.iter().map(|s| s.as_str()).collect();
    assert_eq!(args, vec!["ci"]);
    assert_eq!(note, None);

    let full = vec![
        "install",
        "--no-audit",
        "--no-fund",
        "--loglevel=error",
        "--no-progress",
        "--omit=dev",
    ];
    let (args, note) = npm_install_args("ci", false);
    let args: Vec<&str> = args.iter().map(|s| s.as_str()).collect();
    assert_eq!(args, full);
    assert_eq!(
        note,
        Some(String::from("package-lock.json missing; falling back to npm install."))
    );

    let (args, note) = npm_install_args("install", true);
    let args: Vec<&str> = args.iter().map(|s| s.as_str()).collect();
    assert_eq!(args, full);
    assert_eq!(note, None);
}

#[test]
fn install_failure_is_tagged_for_forced_retry() {
    let (logs, r) = npm_install_outcome(&out(false, "", "npm ERR! code EACCES\n"));
    assert_eq!(logs, vec!["npm ERR! code EACCES"]);
    assert_eq!(
        r,
        Err(String::from(
            "NPM_INSTALL_FAILED::npm install failed. Details: npm ERR! code EACCES"
        ))
    );
    let (logs, r) = npm_install_outcome(&out(false, "", ""));
    assert!(logs.is_empty());
    assert_eq!(
        r,
        Err(String::from("NPM_INSTALL_FAILED::npm install failed. Check logs for details."))
    );
}

#[test]
fn install_success_forwards_non_blank_output() {
    let (logs, r) = npm_install_outcome(&out(true, "added 120 packages\n", "npm WARN deprecated\n"));
    assert_eq!(logs, vec!["added 120 packages", "npm WARN deprecated"]);
    assert_eq!(r, Ok(()));
    let (logs, r) = npm_install_outcome(&out(true, "", ""));
    assert!(logs.is_empty());
    assert_eq!(r, Ok(()));
}
