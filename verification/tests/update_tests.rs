use tavern_supervisor::update::{combined, finalize_stash_outcome, finalize_stash_plan, format_update_log, CmdOutput, UpdateAction, UpdateMachine, UpdateStatus};

fn out(ok: bool, stdout: &str, stderr: &str) -> CmdOutput {
    CmdOutput {
        ok,
        stdout: String::from(stdout),
        stderr: String::from(stderr),
    }
}

#[test]
fn policy_disabled_update_is_up_to_date_without_git() {
    let (m, step) = UpdateMachine::new(
        false,
        Some(String::from("update.sh")),
        false,
        String::from("/srv/SillyTavern/WTUpdate.log"),
    );
    assert!(!m.stash_used);
    assert_eq!(step.logs.len(), 1);
    match step.action {
        UpdateAction::Done(resp) => {
            assert_eq!(resp.status, UpdateStatus::UpToDate);
            assert_eq!(
                resp.message,
                "Skipping vendor update: in-app git pull is disabled by policy. Use update.sh to update WeylandTavern manually."
            );
            assert_eq!(resp.log_path, None);
            assert_eq!(resp.diff, None);
            assert!(!resp.stash_used);
            assert_eq!(resp.log_contents, None);
        },
        _ => panic!("expected an immediate outcome"),
    }
}

#[test]
fn policy_disabled_update_without_hint() {
    let (_, step) = UpdateMachine::new(false, None, false, String::from("p"));
    match step.action {
        UpdateAction::Done(resp) => {
            assert_eq!(
                resp.message,
                "Skipping vendor update: in-app git pull is disabled by policy."
            );
        },
        _ => panic!("expected an immediate outcome"),
    }
}

#[test]
fn current_repository_reports_up_to_date_and_writes_no_log() {
    let (mut m, step) = UpdateMachine::new(true, None, false, String::from("/t/WTUpdate.log"));
    assert!(matches!(step.action, UpdateAction::RunPull));
    assert_eq!(step.logs[0], "Attempting to update WeylandTavern...");
    let step = m.on_pull_result(&out(true, "Already up to date.\n", ""));
    match step.action {
        UpdateAction::Done(resp) => {
            assert_eq!(resp.status, UpdateStatus::UpToDate);
            assert_eq!(resp.message, "WeylandTavern is up to date!");
            assert_eq!(resp.log_path, None);
            assert_eq!(resp.log_contents, None);
            assert!(!resp.stash_used);
        },
        _ => panic!("a successful pull must finish the workflow"),
    }
}

#[test]
fn marker_is_recognised_case_insensitively() {
    let (mut m, _) = UpdateMachine::new(true, None, false, String::from("p"));
    let step = m.on_pull_result(&out(true, "ALREADY UP TO DATE\n", ""));
    match step.action {
        UpdateAction::Done(resp) => assert_eq!(resp.status, UpdateStatus::UpToDate),
        _ => panic!("a successful pull must finish the workflow"),
    }
}

#[test]
fn successful_pull_with_new_commits_reports_success() {
    let (mut m, _) = UpdateMachine::new(true, None, false, String::from("p"));
    let step = m.on_pull_result(&out(true, "Updating 1a2b..3c4d\nFast-forward\n", ""));
    match step.action {
        UpdateAction::Done(resp) => {
            assert_eq!(resp.status, UpdateStatus::Success);
            assert_eq!(resp.message, "WeylandTavern updated successfully.");
        },
        _ => panic!("a successful pull must finish the workflow"),
    }
}

#[test]
fn failing_pull_yields_need_retry_with_log() {
    let (mut m, _) = UpdateMachine::new(true, None, false, String::from("/t/WTUpdate.log"));
    let step = m.on_pull_result(&out(false, "", "error: local changes would be overwritten\n"));
    assert!(matches!(step.action, UpdateAction::RunDiff));
    assert_eq!(step.logs.len(), 2);
    assert_eq!(step.logs[0], "There was an error updating WeylandTavern...");
    assert_eq!(step.logs[1], "Generating log file SillyTavern/WTUpdate.log...");

    let step = m.on_diff_result(&out(true, " src/app.js | 2 +-\n", ""));
    let contents = match step.action {
        UpdateAction::WriteLog { path, contents } => {
            assert_eq!(path, "/t/WTUpdate.log");
            contents
        },
        _ => panic!("a failing pull must persist a diagnostic log"),
    };
    assert!(contents.contains("git pull output:"));
    assert!(contents.contains("Git diff --compact-summary:"));

    let step = m.on_log_written();
    match step.action {
        UpdateAction::Done(resp) => {
            assert_eq!(resp.status, UpdateStatus::NeedRetry);
            assert_eq!(resp.message, "There was an error updating WeylandTavern.");
            assert_eq!(resp.log_path, Some(String::from("/t/WTUpdate.log")));
            let lc = resp.log_contents.expect("the log text is carried back");
            assert!(lc.contains("git pull output:"));
            assert!(lc.contains("Git diff --compact-summary:"));
            assert!(!lc.is_empty());
            let diff = resp.diff.expect("combined text is non-empty here");
            assert_eq!(
                diff,
                "error: local changes would be overwritten\n\nsrc/app.js | 2 +-"
            );
            assert!(!resp.stash_used);
        },
        _ => panic!("the persisted log concludes the workflow"),
    }
}

#[test]
fn failing_stash_aborts_before_any_pull() {
    let (mut m, step) = UpdateMachine::new(true, None, true, String::from("p"));
    assert!(matches!(step.action, UpdateAction::RunStash));
    assert_eq!(step.logs[0], "Stashing local changes before retrying update...");
    let step = m.on_stash_result(&out(false, "", "fatal: unable to write new index file\n"));
    match step.action {
        UpdateAction::Abort(msg) => {
            assert_eq!(
                msg,
                "git stash failed: fatal: unable to write new index file"
            );
        },
        _ => panic!("a failing stash is a hard failure"),
    }
    assert!(!m.stash_used, "no stash was created");
}

#[test]
fn failing_stash_with_silent_git() {
    let (mut m, _) = UpdateMachine::new(true, None, true, String::from("p"));
    let step = m.on_stash_result(&out(false, "", ""));
    match step.action {
        UpdateAction::Abort(msg) => assert_eq!(msg, "git stash failed"),
        _ => panic!("a failing stash is a hard failure"),
    }
}

#[test]
fn overwrite_retry_that_fails_reports_failed_with_stash() {
    let (mut m, _) = UpdateMachine::new(true, None, true, String::from("/t/WTUpdate.log"));
    let step = m.on_stash_result(&out(true, "Saved working directory\n", ""));
    assert!(matches!(step.action, UpdateAction::RunPull));
    assert!(m.stash_used);
    let step = m.on_pull_result(&out(false, "", "error: cannot pull\n"));
    assert!(matches!(step.action, UpdateAction::RunDiff));
    let step = m.on_diff_result(&out(true, "", ""));
    assert!(matches!(step.action, UpdateAction::WriteLog { .. }));
    let step = m.on_log_written();
    match step.action {
        UpdateAction::Done(resp) => {
            assert_eq!(resp.status, UpdateStatus::Failed);
            assert_eq!(resp.message, "Update failed even after stashing local changes.");
            assert!(resp.stash_used);
            assert_eq!(resp.log_path, Some(String::from("/t/WTUpdate.log")));
        },
        _ => panic!("the persisted log concludes the workflow"),
    }
}

#[test]
fn update_log_layout_uses_placeholders() {
    assert_eq!(
        format_update_log("", ""),
        "git pull output:\n(no output)\n\nGit diff --compact-summary:\nNo differences.\n"
    );
    assert_eq!(
        format_update_log(" pull said this \n", " a | 1 +\n"),
        "git pull output:\npull said this\n\nGit diff --compact-summary:\na | 1 +\n"
    );
}

#[test]
fn finalize_stash_chooses_pop_or_clear() {
    let (args, msg) = finalize_stash_plan(true);
    let args: Vec<&str> = args.iter().map(|s| s.as_str()).collect();
    assert_eq!(args, vec!["stash", "pop"]);
    assert_eq!(msg, "Reverting differing files post update...");
    let (args, msg) = finalize_stash_plan(false);
    let args: Vec<&str> = args.iter().map(|s| s.as_str()).collect();
    assert_eq!(args, vec!["stash", "clear"]);
    assert_eq!(msg, "Discarding stashed changes...");
}

#[test]
fn finalize_stash_failure_carries_output() {
    assert_eq!(finalize_stash_outcome(&out(true, "", "")), Ok(()));
    assert_eq!(
        finalize_stash_outcome(&out(false, "conflict in a.js\n", "")),
        Err(String::from("conflict in a.js"))
    );
    assert_eq!(
        finalize_stash_outcome(&out(false, "", "")),
        Err(String::from("Failed to finalize stash"))
    );
}

#[test]
fn combined_joins_stdout_then_stderr() {
    assert_eq!(combined(&out(true, "a", "b")), "ab");
    assert_eq!(combined(&out(false, "", "e")), "e");
}
