//! The vendor update workflow: a pull/stash/diff/log sequence against the
//! version-controlled directory that holds the target application. The
//! unverified shell runs each git command and file write; every decision —
//! which command comes next, how its output is classified, what is logged,
//! and the structured outcome handed back to the caller — is made here.

use vstd::prelude::*;
use vstd::string::StrSliceExecFns;
use vstd::string::StringExecFns;
use crate::text::{contains_ci, contains_ci_spec, trim_spec, trim_str};

verus! {

/// The classification of one finished update attempt.
#[derive(Clone, Copy, Debug, PartialEq, Eq, Structural)]
pub enum UpdateStatus {
    /// The pull brought new commits.
    Success,
    /// Nothing to do: the tree is already current, or updates are
    /// policy-disabled.
    UpToDate,
    /// The pull failed on a first attempt; the caller may retry with an
    /// overwrite.
    NeedRetry,
    /// The pull failed even after stashing local changes.
    Failed,
}

/// The structured outcome of one update attempt.
#[derive(Debug)]
pub struct UpdateResponse {
    pub status: UpdateStatus,
    pub message: String,
    /// Where the diagnostic log was persisted, when one was.
    pub log_path: Option<String>,
    /// The combined pull and diff text, when there was any.
    pub diff: Option<String>,
    /// Whether a stash was created during this attempt.
    pub stash_used: bool,
    /// The full text of the persisted diagnostic log, when one was.
    pub log_contents: Option<String>,
}

/// The observable result of one finished subprocess: whether it exited
/// successfully, and its decoded stdout and stderr.
#[derive(Debug)]
pub struct CmdOutput {
    pub ok: bool,
    pub stdout: String,
    pub stderr: String,
}

/// Concatenates a command's stdout and stderr, in that order.
pub fn combined(out: &CmdOutput) -> (r: String)
    ensures
        r@ == out.stdout@ + out.stderr@,
{
    let mut r = out.stdout.clone();
    r.append(out.stderr.as_str());
    r
}

/// Whether a successful pull reported the tree as already current.
pub open spec fn pull_up_to_date_spec(pull_text: Seq<char>) -> bool {
    contains_ci_spec(pull_text, "already up to date"@)
}

/// The hard-failure message for a stash that exited non-zero.
pub open spec fn stash_failure_msg_spec(details: Seq<char>) -> Seq<char> {
    if trim_spec(details).len() == 0 {
        "git stash failed"@
    } else {
        "git stash failed: "@ + trim_spec(details)
    }
}

fn stash_failure_msg(details: &str) -> (r: String)
    ensures
        r@ == stash_failure_msg_spec(details@),
{
    let t = trim_str(details);
    if t.unicode_len() == 0 {
        String::from_str("git stash failed")
    } else {
        let r = String::from_str("git stash failed: ").concat(t);
        r
    }
}

/// The two-section diagnostic log persisted after a failed pull: the pull
/// output, then the compact diff, each replaced by an explicit placeholder
/// when blank.
pub open spec fn update_log_spec(pull: Seq<char>, diff: Seq<char>) -> Seq<char> {
    let p = if trim_spec(pull).len() == 0 {
        "(no output)"@
    } else {
        trim_spec(pull)
    };
    let head = "git pull output:\n"@ + p + "\n\nGit diff --compact-summary:\n"@;
    if trim_spec(diff).len() == 0 {
        head + "No differences.\n"@
    } else {
        head + trim_spec(diff) + "\n"@
    }
}

/// Renders the diagnostic log for a failed pull.
pub fn format_update_log(pull: &str, diff: &str) -> (r: String)
    ensures
        r@ == update_log_spec(pull@, diff@),
{
    let mut r = String::from_str("git pull output:\n");
    let tp = trim_str(pull);
    if tp.unicode_len() == 0 {
        r.append("(no output)");
    } else {
        r.append(tp);
    }
    r.append("\n\nGit diff --compact-summary:\n");
    let td = trim_str(diff);
    if td.unicode_len() == 0 {
        r.append("No differences.\n");
    } else {
        r.append(td);
        r.append("\n");
    }
    proof {
        assert(r@ =~= update_log_spec(pull@, diff@));
    }
    r
}

/// The combined pull-then-diff text surfaced in a failure outcome: the two
/// trimmed texts joined by a blank line, with empty parts dropped.
pub open spec fn combined_diff_spec(pull_text: Seq<char>, diff_text: Seq<char>) -> Seq<char> {
    let p = trim_spec(pull_text);
    let d = trim_spec(diff_text);
    if d.len() == 0 {
        p
    } else if p.len() == 0 {
        d
    } else {
        p + "\n\n"@ + d
    }
}

fn combined_diff(pull_text: &str, diff_text: &str) -> (r: String)
    ensures
        r@ == combined_diff_spec(pull_text@, diff_text@),
{
    let p = trim_str(pull_text);
    let d = trim_str(diff_text);
    if d.unicode_len() == 0 {
        String::from_str(p)
    } else if p.unicode_len() == 0 {
        String::from_str(d)
    } else {
        let mut r = String::from_str(p);
        r.append("\n\n");
        r.append(d);
        proof {
            assert(r@ =~= combined_diff_spec(pull_text@, diff_text@));
        }
        r
    }
}

/// The skip message when in-app updates are policy-disabled, pointing at
/// the external update script when one is configured.
pub open spec fn skip_msg_spec(script_hint: Option<String>) -> Seq<char> {
    match script_hint {
        Some(h) => "Skipping vendor update: in-app git pull is disabled by policy."@ + " Use "@
            + h@ + " to update WeylandTavern manually."@,
        None => "Skipping vendor update: in-app git pull is disabled by policy."@,
    }
}

fn skip_msg(script_hint: &Option<String>) -> (r: String)
    ensures
        r@ == skip_msg_spec(*script_hint),
{
    let mut r = String::from_str("Skipping vendor update: in-app git pull is disabled by policy.");
    match script_hint {
        Some(h) => {
            r.append(" Use ");
            r.append(h.as_str());
            r.append(" to update WeylandTavern manually.");
            proof {
                assert(r@ =~= skip_msg_spec(*script_hint));
            }
        },
        None => {},
    }
    r
}

/// Which event the update workflow is waiting for.
pub enum UpdatePhase {
    /// `git stash` is running.
    AwaitingStash,
    /// `git pull` is running.
    AwaitingPull,
    /// `git diff --compact-summary` is running after a failed pull, whose
    /// combined output is kept here.
    AwaitingDiff { pull_text: String },
    /// The diagnostic log is being persisted.
    AwaitingLogWrite { pull_text: String, diff_text: String },
    /// The workflow has produced its outcome.
    Finished,
}

/// What the shell must do next.
pub enum UpdateAction {
    /// Run `git stash` in the repository and report its result.
    RunStash,
    /// Run `git pull` in the repository and report its result.
    RunPull,
    /// Run `git diff --compact-summary` in the repository and report its
    /// result.
    RunDiff,
    /// Persist `contents` at `path` and report back once written.
    WriteLog { path: String, contents: String },
    /// The workflow is finished with this outcome.
    Done(UpdateResponse),
    /// The workflow failed hard; propagate this error to the caller.
    Abort(String),
}

/// One step of the workflow: lines to forward to the log sink, then the
/// next action.
pub struct UpdateStep {
    pub logs: Vec<String>,
    pub action: UpdateAction,
}

/// The update/stash workflow, driven one subprocess result at a time.
pub struct UpdateMachine {
    /// Whether this attempt is the overwrite retry, which stashes first
    /// and reports `Failed` instead of `NeedRetry` on a failing pull.
    pub attempt_overwrite: bool,
    /// Whether a stash was created during this attempt.
    pub stash_used: bool,
    /// Where the diagnostic log is persisted on a failing pull.
    pub log_path: String,
    pub phase: UpdatePhase,
}

impl UpdateMachine {
    /// Starts one update attempt. Policy-disabled updates finish at once as
    /// `UpToDate`, with no git invocation; an overwrite attempt stashes
    /// first; otherwise the pull runs directly.
    pub fn new(
        policy_allowed: bool,
        script_hint: Option<String>,
        attempt_overwrite: bool,
        log_path: String,
    ) -> (r: (UpdateMachine, UpdateStep))
        ensures
            r.0.attempt_overwrite == attempt_overwrite,
            r.0.stash_used == false,
            r.0.log_path@ == log_path@,
            !policy_allowed ==> (r.0.phase is Finished
                && r.1.logs.deep_view() == seq![skip_msg_spec(script_hint)]
                && (r.1.action matches UpdateAction::Done(resp)
                    && resp.status == UpdateStatus::UpToDate
                    && resp.message@ == skip_msg_spec(script_hint)
                    && resp.log_path is None
                    && resp.diff is None
                    && resp.stash_used == false
                    && resp.log_contents is None)),
            policy_allowed && attempt_overwrite ==> (r.0.phase is AwaitingStash
                && r.1.action is RunStash
                && r.1.logs.deep_view() == seq![
                    "Stashing local changes before retrying update..."@,
                ]),
            policy_allowed && !attempt_overwrite ==> (r.0.phase is AwaitingPull
                && r.1.action is RunPull
                && r.1.logs.deep_view() == seq!["Attempting to update WeylandTavern..."@]),
    {
        if !policy_allowed {
            let msg = skip_msg(&script_hint);
            let resp = UpdateResponse {
                status: UpdateStatus::UpToDate,
                message: msg.clone(),
                log_path: None,
                diff: None,
                stash_used: false,
                log_contents: None,
            };
            let mut logs: Vec<String> = Vec::new();
            logs.push(msg);
            proof {
                assert(logs.deep_view() =~= seq![skip_msg_spec(script_hint)]);
            }
            let m = UpdateMachine {
                attempt_overwrite: attempt_overwrite,
                stash_used: false,
                log_path: log_path,
                phase: UpdatePhase::Finished,
            };
            (m, UpdateStep { logs, action: UpdateAction::Done(resp) })
        } else if attempt_overwrite {
            let mut logs: Vec<String> = Vec::new();
            logs.push(String::from_str("Stashing local changes before retrying update..."));
            proof {
                assert(logs.deep_view() =~= seq![
                    "Stashing local changes before retrying update..."@,
                ]);
            }
            let m = UpdateMachine {
                attempt_overwrite: attempt_overwrite,
                stash_used: false,
                log_path: log_path,
                phase: UpdatePhase::AwaitingStash,
            };
            (m, UpdateStep { logs, action: UpdateAction::RunStash })
        } else {
            let mut logs: Vec<String> = Vec::new();
            logs.push(String::from_str("Attempting to update WeylandTavern..."));
            proof {
                assert(logs.deep_view() =~= seq!["Attempting to update WeylandTavern..."@]);
            }
            let m = UpdateMachine {
                attempt_overwrite: attempt_overwrite,
                stash_used: false,
                log_path: log_path,
                phase: UpdatePhase::AwaitingPull,
            };
            (m, UpdateStep { logs, action: UpdateAction::RunPull })
        }
    }

    /// Applies the result of `git stash`. A non-zero exit is a hard
    /// failure — local state is now ambiguous — and no pull is attempted;
    /// the stash flag is left unset.
    pub fn on_stash_result(&mut self, out: &CmdOutput) -> (r: UpdateStep)
        requires
            old(self).phase is AwaitingStash,
        ensures
            final(self).attempt_overwrite == old(self).attempt_overwrite,
            final(self).log_path@ == old(self).log_path@,
            r.logs.deep_view() == Seq::<Seq<char>>::empty(),
            out.ok ==> (final(self).phase is AwaitingPull
                && final(self).stash_used == true
                && r.action is RunPull),
            !out.ok ==> (final(self).phase is Finished
                && final(self).stash_used == old(self).stash_used
                && (r.action matches UpdateAction::Abort(m)
                    && m@ == stash_failure_msg_spec(out.stdout@ + out.stderr@))),
    {
        if out.ok {
            self.stash_used = true;
            self.phase = UpdatePhase::AwaitingPull;
            UpdateStep { logs: Vec::new(), action: UpdateAction::RunPull }
        } else {
            self.phase = UpdatePhase::Finished;
            let details = combined(out);
            let msg = stash_failure_msg(details.as_str());
            UpdateStep { logs: Vec::new(), action: UpdateAction::Abort(msg) }
        }
    }

    /// Applies the result of `git pull`. A successful pull finishes the
    /// workflow, classified `UpToDate` when its output carries the
    /// already-current marker and `Success` otherwise; a failing pull moves
    /// on to the diagnostic diff.
    pub fn on_pull_result(&mut self, out: &CmdOutput) -> (r: UpdateStep)
        requires
            old(self).phase is AwaitingPull,
        ensures
            final(self).attempt_overwrite == old(self).attempt_overwrite,
            final(self).stash_used == old(self).stash_used,
            final(self).log_path@ == old(self).log_path@,
            out.ok ==> (final(self).phase is Finished
                && (r.action matches UpdateAction::Done(resp)
                    && resp.status == (if pull_up_to_date_spec(out.stdout@ + out.stderr@) {
                        UpdateStatus::UpToDate
                    } else {
                        UpdateStatus::Success
                    })
                    && resp.message@ == (if pull_up_to_date_spec(out.stdout@ + out.stderr@) {
                        "WeylandTavern is up to date!"@
                    } else {
                        "WeylandTavern updated successfully."@
                    })
                    && resp.log_path is None
                    && resp.diff is None
                    && resp.stash_used == old(self).stash_used
                    && resp.log_contents is None
                    && r.logs.deep_view() == seq![resp.message@])),
            !out.ok ==> ((final(self).phase matches UpdatePhase::AwaitingDiff { pull_text }
                && pull_text@ == out.stdout@ + out.stderr@)
                && r.action is RunDiff
                && r.logs.deep_view() == seq![
                    "There was an error updating WeylandTavern..."@,
                    "Generating log file SillyTavern/WTUpdate.log..."@,
                ]),
    {
        let text = combined(out);
        if out.ok {
            self.phase = UpdatePhase::Finished;
            let msg = if contains_ci(text.as_str(), "already up to date") {
                String::from_str("WeylandTavern is up to date!")
            } else {
                String::from_str("WeylandTavern updated successfully.")
            };
            let status = if contains_ci(text.as_str(), "already up to date") {
                UpdateStatus::UpToDate
            } else {
                UpdateStatus::Success
            };
            let resp = UpdateResponse {
                status: status,
                message: msg.clone(),
                log_path: None,
                diff: None,
                stash_used: self.stash_used,
                log_contents: None,
            };
            let mut logs: Vec<String> = Vec::new();
            logs.push(msg);
            proof {
                assert(logs.deep_view() =~= seq![resp.message@]);
            }
            UpdateStep { logs, action: UpdateAction::Done(resp) }
        } else {
            self.phase = UpdatePhase::AwaitingDiff { pull_text: text };
            let mut logs: Vec<String> = Vec::new();
            logs.push(String::from_str("There was an error updating WeylandTavern..."));
            logs.push(String::from_str("Generating log file SillyTavern/WTUpdate.log..."));
            proof {
                assert(logs.deep_view() =~= seq![
                    "There was an error updating WeylandTavern..."@,
                    "Generating log file SillyTavern/WTUpdate.log..."@,
                ]);
            }
            UpdateStep { logs, action: UpdateAction::RunDiff }
        }
    }

    /// Applies the result of the diagnostic diff: the two-section log is
    /// rendered and handed to the shell to persist.
    pub fn on_diff_result(&mut self, out: &CmdOutput) -> (r: UpdateStep)
        requires
            old(self).phase is AwaitingDiff,
        ensures
            final(self).attempt_overwrite == old(self).attempt_overwrite,
            final(self).stash_used == old(self).stash_used,
            final(self).log_path@ == old(self).log_path@,
            r.logs.deep_view() == Seq::<Seq<char>>::empty(),
            old(self).phase matches UpdatePhase::AwaitingDiff { pull_text } ==> ((
            final(self).phase matches UpdatePhase::AwaitingLogWrite {
                pull_text: p,
                diff_text: d,
            } && p@ == pull_text@ && d@ == out.stdout@ + out.stderr@)
                && (r.action matches UpdateAction::WriteLog { path, contents }
                    && path@ == old(self).log_path@
                    && contents@ == update_log_spec(pull_text@, out.stdout@ + out.stderr@))),
    {
        let diff_text = combined(out);
        let mut phase = UpdatePhase::Finished;
        core::mem::swap(&mut phase, &mut self.phase);
        match phase {
            UpdatePhase::AwaitingDiff { pull_text } => {
                let contents = format_update_log(pull_text.as_str(), diff_text.as_str());
                let path = self.log_path.clone();
                self.phase = UpdatePhase::AwaitingLogWrite {
                    pull_text: pull_text,
                    diff_text: diff_text,
                };
                UpdateStep {
                    logs: Vec::new(),
                    action: UpdateAction::WriteLog { path, contents },
                }
            },
            _ => {
                // Unreachable: the precondition pins the phase.
                proof {
                    assert(false);
                }
                UpdateStep { logs: Vec::new(), action: UpdateAction::RunDiff }
            },
        }
    }

    /// Concludes the workflow once the diagnostic log is persisted: the
    /// outcome is `NeedRetry` on a first attempt and `Failed` on an
    /// overwrite retry, carrying the log's path, its full text, the
    /// combined pull/diff text, and the stash flag.
    pub fn on_log_written(&mut self) -> (r: UpdateStep)
        requires
            old(self).phase is AwaitingLogWrite,
        ensures
            final(self).attempt_overwrite == old(self).attempt_overwrite,
            final(self).stash_used == old(self).stash_used,
            final(self).log_path@ == old(self).log_path@,
            final(self).phase is Finished,
            r.logs.deep_view() == Seq::<Seq<char>>::empty(),
            old(self).phase matches UpdatePhase::AwaitingLogWrite { pull_text, diff_text }
                ==> (r.action matches UpdateAction::Done(resp)
                && resp.status == (if old(self).attempt_overwrite {
                    UpdateStatus::Failed
                } else {
                    UpdateStatus::NeedRetry
                })
                && resp.message@ == (if old(self).attempt_overwrite {
                    "Update failed even after stashing local changes."@
                } else {
                    "There was an error updating WeylandTavern."@
                })
                && (resp.log_path matches Some(lp) && lp@ == old(self).log_path@)
                && (if combined_diff_spec(pull_text@, diff_text@).len() == 0 {
                    resp.diff is None
                } else {
                    resp.diff matches Some(d) && d@ == combined_diff_spec(
                        pull_text@,
                        diff_text@,
                    )
                })
                && resp.stash_used == old(self).stash_used
                && (resp.log_contents matches Some(lc) && lc@ == update_log_spec(
                    pull_text@,
                    diff_text@,
                ))),
    {
        let mut phase = UpdatePhase::Finished;
        core::mem::swap(&mut phase, &mut self.phase);
        match phase {
            UpdatePhase::AwaitingLogWrite { pull_text, diff_text } => {
                let msg = if self.attempt_overwrite {
                    String::from_str("Update failed even after stashing local changes.")
                } else {
                    String::from_str("There was an error updating WeylandTavern.")
                };
                let status = if self.attempt_overwrite {
                    UpdateStatus::Failed
                } else {
                    UpdateStatus::NeedRetry
                };
                let comb = combined_diff(pull_text.as_str(), diff_text.as_str());
                let diff_field = if comb.unicode_len() == 0 {
                    None
                } else {
                    Some(comb)
                };
                let contents = format_update_log(pull_text.as_str(), diff_text.as_str());
                let resp = UpdateResponse {
                    status: status,
                    message: msg,
                    log_path: Some(self.log_path.clone()),
                    diff: diff_field,
                    stash_used: self.stash_used,
                    log_contents: Some(contents),
                };
                UpdateStep { logs: Vec::new(), action: UpdateAction::Done(resp) }
            },
            _ => {
                // Unreachable: the precondition pins the phase.
                proof {
                    assert(false);
                }
                UpdateStep { logs: Vec::new(), action: UpdateAction::RunDiff }
            },
        }
    }
}

/// The hard-failure message when reverting or discarding the stash fails.
pub open spec fn finalize_failure_msg_spec(details: Seq<char>) -> Seq<char> {
    if trim_spec(details).len() == 0 {
        "Failed to finalize stash"@
    } else {
        trim_spec(details)
    }
}

/// The git arguments and progress message for finalizing the stash:
/// `stash pop` to revert, `stash clear` to discard.
pub fn finalize_stash_plan(revert: bool) -> (r: (Vec<String>, String))
    ensures
        revert ==> r.0.deep_view() == seq!["stash"@, "pop"@]
            && r.1@ == "Reverting differing files post update..."@,
        !revert ==> r.0.deep_view() == seq!["stash"@, "clear"@]
            && r.1@ == "Discarding stashed changes..."@,
{
    let mut args: Vec<String> = Vec::new();
    args.push(String::from_str("stash"));
    if revert {
        args.push(String::from_str("pop"));
        proof {
            assert(args.deep_view() =~= seq!["stash"@, "pop"@]);
        }
        (args, String::from_str("Reverting differing files post update..."))
    } else {
        args.push(String::from_str("clear"));
        proof {
            assert(args.deep_view() =~= seq!["stash"@, "clear"@]);
        }
        (args, String::from_str("Discarding stashed changes..."))
    }
}

/// Classifies the exit of the stash-finalizing command: a non-zero exit is
/// a hard failure carrying the captured combined output.
pub fn finalize_stash_outcome(out: &CmdOutput) -> (r: Result<(), String>)
    ensures
        out.ok ==> r is Ok,
        !out.ok ==> (r matches Err(m) && m@ == finalize_failure_msg_spec(
            out.stdout@ + out.stderr@,
        )),
{
    if out.ok {
        Ok(())
    } else {
        let details = combined(out);
        let t = trim_str(details.as_str());
        if t.unicode_len() == 0 {
            Err(String::from_str("Failed to finalize stash"))
        } else {
            Err(String::from_str(t))
        }
    }
}

} // verus!
