//! Locating and invoking the package-manager tool. The locator is an
//! ordered chain of strategies: a configured override (which must actually
//! run, or the launch fails naming it), then platform-appropriate binary
//! names probed on PATH, then the package-manager script bundled with the
//! runtime, resolved by the runtime itself and invoked through it. The
//! unverified shell runs each probe; the chain's decisions are made here.

use vstd::prelude::*;
use vstd::string::StrSliceExecFns;
use vstd::string::StringExecFns;
use crate::text::{ci_eq_seq, concat3, eq_ci, i64_to_string, int_str_spec, trim_spec, trim_str};
use crate::update::{combined, CmdOutput};

verus! {

/// An executable package-manager tool: a binary invoked directly, or a
/// script invoked through the node runtime.
#[derive(Debug)]
pub enum NpmTool {
    Binary(String),
    Script(String),
}

impl NpmTool {
    /// The program and leading arguments that invoke the tool: a binary
    /// runs directly; a script runs as `node <path>`.
    pub fn into_invocation(self) -> (r: (String, Vec<String>))
        ensures
            self matches NpmTool::Binary(b) ==> r.0@ == b@ && r.1.deep_view()
                == Seq::<Seq<char>>::empty(),
            self matches NpmTool::Script(p) ==> r.0@ == "node"@ && r.1.deep_view() == seq![p@],
    {
        match self {
            NpmTool::Binary(b) => (b, Vec::new()),
            NpmTool::Script(p) => {
                let mut args: Vec<String> = Vec::new();
                args.push(p);
                proof {
                    assert(args.deep_view() =~= seq![args@[0]@]);
                }
                (String::from_str("node"), args)
            },
        }
    }
}

/// The platform-appropriate binary names probed on PATH, in order.
pub fn npm_candidates(windows: bool) -> (r: Vec<String>)
    ensures
        windows ==> r.deep_view() == seq!["npm.cmd"@, "npm"@],
        !windows ==> r.deep_view() == seq!["npm"@],
{
    let mut r: Vec<String> = Vec::new();
    if windows {
        r.push(String::from_str("npm.cmd"));
        r.push(String::from_str("npm"));
        proof {
            assert(r.deep_view() =~= seq!["npm.cmd"@, "npm"@]);
        }
    } else {
        r.push(String::from_str("npm"));
        proof {
            assert(r.deep_view() =~= seq!["npm"@]);
        }
    }
    r
}

/// The arguments that ask the node runtime for the bundled npm script's
/// path.
pub fn node_resolve_args() -> (r: Vec<String>)
    ensures
        r.deep_view() == seq!["-p"@, "require.resolve('npm/bin/npm-cli.js')"@],
{
    let mut r: Vec<String> = Vec::new();
    r.push(String::from_str("-p"));
    r.push(String::from_str("require.resolve('npm/bin/npm-cli.js')"));
    proof {
        assert(r.deep_view() =~= seq!["-p"@, "require.resolve('npm/bin/npm-cli.js')"@]);
    }
    r
}

/// The note logged when the configured override is used.
pub open spec fn override_ok_msg_spec(path: Seq<char>) -> Seq<char> {
    "Using npm from "@ + path + " as configured via NPM_BIN."@
}

/// The error for an override that does not run: the launch fails naming the
/// misconfigured setting instead of silently falling through.
pub open spec fn override_bad_msg_spec(path: Seq<char>) -> Seq<char> {
    "Configured NPM_BIN at "@ + path + " is not executable. Install npm or update NPM_BIN."@
}

/// The note logged when PATH probing is exhausted.
pub open spec fn path_exhausted_msg_spec() -> Seq<char> {
    "npm executable not found on PATH; attempting to use the npm-cli.js bundled with Node."@
}

/// The note logged when the bundled script is resolved.
pub open spec fn script_ok_msg_spec(path: Seq<char>) -> Seq<char> {
    "Resolved npm-cli.js at "@ + path + ". Falling back to running npm via node."@
}

/// The error when every strategy failed, extended with the resolver's
/// stderr when it said anything.
pub open spec fn npm_not_found_msg_spec(stderr: Seq<char>) -> Seq<char> {
    if trim_spec(stderr).len() == 0 {
        "npm not found. Install Node.js (which includes npm) or set NPM_BIN to the npm executable path."@
    } else {
        "npm not found. Install Node.js (which includes npm) or set NPM_BIN to the npm executable path."@
            + " "@ + trim_spec(stderr)
    }
}

/// What the shell must do next while locating the tool.
pub enum LocateAction {
    /// Probe whether this program runs (its version query exits zero).
    Probe(String),
    /// Ask the node runtime to resolve the bundled script's path.
    ResolveScript,
    /// The chain is decided.
    Done(Result<NpmTool, String>),
}

/// One step of the locator: lines to forward to the log sink, then the
/// next action.
pub struct LocateStep {
    pub logs: Vec<String>,
    pub action: LocateAction,
}

/// Which probe the locator is waiting for.
pub enum LocatePhase {
    ProbingOverride,
    ProbingCandidates,
    AwaitingScript,
    Finished,
}

/// The tool-locating chain, driven one probe result at a time.
pub struct LocateMachine {
    pub override_path: Option<String>,
    pub candidates: Vec<String>,
    pub next_idx: usize,
    pub phase: LocatePhase,
}

impl LocateMachine {
    /// The machine never probes past its candidate list, and only probes an
    /// override it actually holds.
    pub open spec fn wf(self) -> bool {
        &&& (self.phase is ProbingOverride ==> self.override_path is Some)
        &&& (self.phase is ProbingCandidates ==> self.next_idx < self.candidates@.len())
    }

    /// Starts the chain: a configured, non-blank override is probed first;
    /// otherwise the candidate names are probed in order; with no
    /// candidates at all the runtime resolution starts at once.
    pub fn new(override_path: Option<String>, candidates: Vec<String>) -> (r: (
        LocateMachine,
        LocateStep,
    ))
        ensures
            r.0.wf(),
            r.1.logs.deep_view() == Seq::<Seq<char>>::empty(),
            (match override_path {
                Some(p) => p@.len() > 0,
                None => false,
            }) ==> (r.0.phase is ProbingOverride
                && (r.1.action matches LocateAction::Probe(b)
                    && b@ == override_path->Some_0@)),
            (match override_path {
                Some(p) => p@.len() == 0,
                None => true,
            }) && candidates@.len() > 0 ==> (r.0.phase is ProbingCandidates
                && r.0.next_idx == 0
                && r.0.candidates@ == candidates@
                && (r.1.action matches LocateAction::Probe(b) && b@ == candidates@[0]@)),
            (match override_path {
                Some(p) => p@.len() == 0,
                None => true,
            }) && candidates@.len() == 0 ==> (r.0.phase is AwaitingScript
                && r.1.action is ResolveScript),
    {
        let use_override = match &override_path {
            Some(p) => p.unicode_len() > 0,
            None => false,
        };
        if use_override {
            let probe = match &override_path {
                Some(p) => p.clone(),
                None => String::new(),
            };
            let m = LocateMachine {
                override_path: override_path,
                candidates: candidates,
                next_idx: 0,
                phase: LocatePhase::ProbingOverride,
            };
            (m, LocateStep { logs: Vec::new(), action: LocateAction::Probe(probe) })
        } else if candidates.len() > 0 {
            let probe = candidates[0].clone();
            let m = LocateMachine {
                override_path: override_path,
                candidates: candidates,
                next_idx: 0,
                phase: LocatePhase::ProbingCandidates,
            };
            (m, LocateStep { logs: Vec::new(), action: LocateAction::Probe(probe) })
        } else {
            let m = LocateMachine {
                override_path: override_path,
                candidates: candidates,
                next_idx: 0,
                phase: LocatePhase::AwaitingScript,
            };
            (m, LocateStep { logs: Vec::new(), action: LocateAction::ResolveScript })
        }
    }

    /// Applies one probe result. A running override is taken (and noted); a
    /// failing override is a hard error naming the setting. A running
    /// candidate is taken silently; when the candidates are exhausted the
    /// chain falls back to runtime resolution, noting it.
    pub fn on_probe_result(&mut self, ok: bool) -> (r: LocateStep)
        requires
            old(self).wf(),
            old(self).phase is ProbingOverride || old(self).phase is ProbingCandidates,
        ensures
            final(self).wf(),
            old(self).phase is ProbingOverride ==> (match old(self).override_path {
                Some(p) => {
                    &&& ok ==> (final(self).phase is Finished
                        && (r.action matches LocateAction::Done(d)
                            && (d matches Ok(t) && t matches NpmTool::Binary(b) && b@ == p@))
                        && r.logs.deep_view() == seq![override_ok_msg_spec(p@)])
                    &&& !ok ==> (final(self).phase is Finished
                        && (r.action matches LocateAction::Done(d)
                            && (d matches Err(m) && m@ == override_bad_msg_spec(p@)))
                        && r.logs.deep_view() == Seq::<Seq<char>>::empty())
                },
                None => false,
            }),
            old(self).phase is ProbingCandidates && ok ==> (final(self).phase is Finished
                && (r.action matches LocateAction::Done(d)
                    && (d matches Ok(t) && t matches NpmTool::Binary(b)
                        && b@ == old(self).candidates@[old(self).next_idx as int]@))
                && r.logs.deep_view() == Seq::<Seq<char>>::empty()),
            old(self).phase is ProbingCandidates && !ok && old(self).next_idx + 1 < old(
                self,
            ).candidates@.len() ==> (final(self).phase is ProbingCandidates
                && final(self).next_idx == old(self).next_idx + 1
                && final(self).candidates@ == old(self).candidates@
                && (r.action matches LocateAction::Probe(b)
                    && b@ == old(self).candidates@[old(self).next_idx + 1]@)
                && r.logs.deep_view() == Seq::<Seq<char>>::empty()),
            old(self).phase is ProbingCandidates && !ok && old(self).next_idx + 1 >= old(
                self,
            ).candidates@.len() ==> (final(self).phase is AwaitingScript
                && r.action is ResolveScript
                && r.logs.deep_view() == seq![path_exhausted_msg_spec()]),
    {
        match self.phase {
            LocatePhase::ProbingOverride => {
                self.phase = LocatePhase::Finished;
                let path = match &self.override_path {
                    Some(p) => p.clone(),
                    None => String::new(),
                };
                if ok {
                    let msg = concat3("Using npm from ", path.as_str(),
                        " as configured via NPM_BIN.");
                    let mut logs: Vec<String> = Vec::new();
                    let ghost msg_view = msg@;
                    logs.push(msg);
                    proof {
                        assert(logs.deep_view() =~= seq![msg_view]);
                    }
                    LocateStep {
                        logs,
                        action: LocateAction::Done(Ok(NpmTool::Binary(path))),
                    }
                } else {
                    let msg = concat3("Configured NPM_BIN at ", path.as_str(),
                        " is not executable. Install npm or update NPM_BIN.");
                    LocateStep { logs: Vec::new(), action: LocateAction::Done(Err(msg)) }
                }
            },
            LocatePhase::ProbingCandidates => {
                let n = self.candidates.len();
                proof {
                    assert(self.next_idx < n);
                }
                if ok {
                    self.phase = LocatePhase::Finished;
                    let found = self.candidates[self.next_idx].clone();
                    LocateStep {
                        logs: Vec::new(),
                        action: LocateAction::Done(Ok(NpmTool::Binary(found))),
                    }
                } else if self.next_idx + 1 < n {
                    self.next_idx = self.next_idx + 1;
                    let probe = self.candidates[self.next_idx].clone();
                    LocateStep { logs: Vec::new(), action: LocateAction::Probe(probe) }
                } else {
                    self.phase = LocatePhase::AwaitingScript;
                    let note = String::from_str(
                        "npm executable not found on PATH; attempting to use the npm-cli.js bundled with Node.",
                    );
                    let mut logs: Vec<String> = Vec::new();
                    let ghost note_view = note@;
                    logs.push(note);
                    proof {
                        assert(logs.deep_view() =~= seq![note_view]);
                    }
                    LocateStep { logs, action: LocateAction::ResolveScript }
                }
            },
            _ => {
                proof {
                    assert(false);
                }
                LocateStep { logs: Vec::new(), action: LocateAction::ResolveScript }
            },
        }
    }

    /// Applies the runtime's answer: a successful resolve with a non-blank
    /// path yields the script tool (and notes the path); anything else is
    /// the final, actionable error naming the runtime and the override
    /// setting.
    pub fn on_script_result(&mut self, out: &CmdOutput) -> (r: LocateStep)
        requires
            old(self).wf(),
            old(self).phase is AwaitingScript,
        ensures
            final(self).wf(),
            final(self).phase is Finished,
            out.ok && trim_spec(out.stdout@).len() > 0 ==> ((r.action
                matches LocateAction::Done(d) && (d matches Ok(t)
                && t matches NpmTool::Script(p) && p@ == trim_spec(out.stdout@)))
                && r.logs.deep_view() == seq![script_ok_msg_spec(trim_spec(out.stdout@))]),
            !(out.ok && trim_spec(out.stdout@).len() > 0) ==> ((r.action
                matches LocateAction::Done(d) && (d matches Err(m)
                && m@ == npm_not_found_msg_spec(out.stderr@)))
                && r.logs.deep_view() == Seq::<Seq<char>>::empty()),
    {
        self.phase = LocatePhase::Finished;
        let script = trim_str(out.stdout.as_str());
        if out.ok && script.unicode_len() > 0 {
            let msg = concat3("Resolved npm-cli.js at ", script,
                ". Falling back to running npm via node.");
            let mut logs: Vec<String> = Vec::new();
            let ghost msg_view = msg@;
            logs.push(msg);
            proof {
                assert(logs.deep_view() =~= seq![msg_view]);
            }
            LocateStep {
                logs,
                action: LocateAction::Done(Ok(NpmTool::Script(String::from_str(script)))),
            }
        } else {
            let details = trim_str(out.stderr.as_str());
            let mut msg = String::from_str(
                "npm not found. Install Node.js (which includes npm) or set NPM_BIN to the npm executable path.",
            );
            if details.unicode_len() > 0 {
                msg.append(" ");
                msg.append(details);
            }
            LocateStep { logs: Vec::new(), action: LocateAction::Done(Err(msg)) }
        }
    }
}

/// The outcome of probing whether a program runs: it exited (successfully
/// or not, with or without an exit code), or it could not be spawned.
#[derive(Debug)]
pub enum RunProbe {
    Exited { success: bool, code: Option<i64> },
    SpawnFailed(String),
}

/// The error for a version query that ran but exited non-zero with a code.
pub open spec fn version_exit_msg_spec(bin: Seq<char>, code: int) -> Seq<char> {
    bin + " --version exited with status "@ + int_str_spec(code)
}

/// The error for a version query that ran but reported no exit code.
pub open spec fn version_failed_msg_spec(bin: Seq<char>) -> Seq<char> {
    bin + " --version failed"@
}

/// The error for a program that could not be spawned at all.
pub open spec fn not_on_path_msg_spec(bin: Seq<char>, err: Seq<char>) -> Seq<char> {
    bin + " not found. Install "@ + bin + " and ensure it is on your PATH. ("@ + err + ")"@
}

/// Classifies a version-query probe of a required base command: success
/// passes; every failure is an actionable error naming the command.
pub fn ensure_command_outcome(bin: &str, probe: &RunProbe) -> (r: Result<(), String>)
    ensures
        match probe {
            RunProbe::Exited { success, code } => if *success {
                r is Ok
            } else {
                match code {
                    Some(c) => r matches Err(m) && m@ == version_exit_msg_spec(bin@, *c as int),
                    None => r matches Err(m) && m@ == version_failed_msg_spec(bin@),
                }
            },
            RunProbe::SpawnFailed(e) => r matches Err(m) && m@ == not_on_path_msg_spec(
                bin@,
                e@,
            ),
        },
{
    match probe {
        RunProbe::Exited { success, code } => {
            if *success {
                Ok(())
            } else {
                match code {
                    Some(c) => {
                        let mut m = String::from_str(bin);
                        m.append(" --version exited with status ");
                        let digits = i64_to_string(*c);
                        m.append(digits.as_str());
                        Err(m)
                    },
                    None => {
                        let m = String::from_str(bin).concat(" --version failed");
                        Err(m)
                    },
                }
            }
        },
        RunProbe::SpawnFailed(e) => {
            let mut m = String::from_str(bin);
            m.append(" not found. Install ");
            m.append(bin);
            m.append(" and ensure it is on your PATH. (");
            m.append(e.as_str());
            m.append(")");
            Err(m)
        },
    }
}

/// Whether the package-manager mode asks for a clean, lock-driven install.
pub open spec fn ci_mode_spec(npm_mode: Seq<char>) -> bool {
    ci_eq_seq(trim_spec(npm_mode), "ci"@)
}

/// The note logged when ci-mode is requested without a lock artifact.
pub open spec fn ci_fallback_note_spec() -> Seq<char> {
    "package-lock.json missing; falling back to npm install."@
}

/// The install invocation: `ci` when requested and a lock artifact exists;
/// otherwise a production-only install with audit, fund, and progress
/// output suppressed (noting the fallback when ci-mode lacked its lock).
pub fn npm_install_args(npm_mode: &str, lock_exists: bool) -> (r: (Vec<String>, Option<String>))
    ensures
        ci_mode_spec(npm_mode@) && lock_exists ==> r.0.deep_view() == seq!["ci"@]
            && r.1 is None,
        ci_mode_spec(npm_mode@) && !lock_exists ==> r.0.deep_view() == install_args_spec()
            && (r.1 matches Some(n) && n@ == ci_fallback_note_spec()),
        !ci_mode_spec(npm_mode@) ==> r.0.deep_view() == install_args_spec() && r.1 is None,
{
    let ci = eq_ci(trim_str(npm_mode), "ci");
    if ci && lock_exists {
        let mut args: Vec<String> = Vec::new();
        args.push(String::from_str("ci"));
        proof {
            assert(args.deep_view() =~= seq!["ci"@]);
        }
        (args, None)
    } else {
        let mut args: Vec<String> = Vec::new();
        args.push(String::from_str("install"));
        args.push(String::from_str("--no-audit"));
        args.push(String::from_str("--no-fund"));
        args.push(String::from_str("--loglevel=error"));
        args.push(String::from_str("--no-progress"));
        args.push(String::from_str("--omit=dev"));
        proof {
            assert(args.deep_view() =~= install_args_spec());
        }
        let note = if ci {
            Some(String::from_str("package-lock.json missing; falling back to npm install."))
        } else {
            None
        };
        (args, note)
    }
}

/// The full-install argument list.
pub open spec fn install_args_spec() -> Seq<Seq<char>> {
    seq![
        "install"@,
        "--no-audit"@,
        "--no-fund"@,
        "--loglevel=error"@,
        "--no-progress"@,
        "--omit=dev"@,
    ]
}

/// The lines worth forwarding after a successful install: the trimmed
/// stdout, then the trimmed stderr, each only when non-blank.
pub open spec fn install_success_logs_spec(stdout: Seq<char>, stderr: Seq<char>) -> Seq<
    Seq<char>,
> {
    (if trim_spec(stdout).len() > 0 {
        seq![trim_spec(stdout)]
    } else {
        Seq::empty()
    }) + (if trim_spec(stderr).len() > 0 {
        seq![trim_spec(stderr)]
    } else {
        Seq::empty()
    })
}

/// The tagged launch error for a failed install; the tag lets the caller
/// offer a forced retry that skips installation.
pub open spec fn install_failure_msg_spec(details: Seq<char>) -> Seq<char> {
    if trim_spec(details).len() == 0 {
        "NPM_INSTALL_FAILED::npm install failed. Check logs for details."@
    } else {
        "NPM_INSTALL_FAILED::npm install failed. Details: "@ + trim_spec(details)
    }
}

/// Classifies the install's exit: a non-zero exit fails the whole launch
/// with the captured combined output (also forwarded to the log), tagged
/// for a forced retry; a success forwards its non-blank output.
pub fn npm_install_outcome(out: &CmdOutput) -> (r: (Vec<String>, Result<(), String>))
    ensures
        out.ok ==> r.0.deep_view() == install_success_logs_spec(out.stdout@, out.stderr@)
            && r.1 is Ok,
        !out.ok && trim_spec(out.stdout@ + out.stderr@).len() == 0 ==> (r.0.deep_view()
            == Seq::<Seq<char>>::empty() && (r.1 matches Err(m)
            && m@ == install_failure_msg_spec(out.stdout@ + out.stderr@))),
        !out.ok && trim_spec(out.stdout@ + out.stderr@).len() > 0 ==> (r.0.deep_view()
            == seq![trim_spec(out.stdout@ + out.stderr@)] && (r.1 matches Err(m)
            && m@ == install_failure_msg_spec(out.stdout@ + out.stderr@))),
{
    if out.ok {
        let mut logs: Vec<String> = Vec::new();
        let so = trim_str(out.stdout.as_str());
        if so.unicode_len() > 0 {
            logs.push(String::from_str(so));
        }
        let se = trim_str(out.stderr.as_str());
        if se.unicode_len() > 0 {
            logs.push(String::from_str(se));
        }
        proof {
            assert(logs.deep_view() =~= install_success_logs_spec(out.stdout@, out.stderr@));
        }
        (logs, Ok(()))
    } else {
        let all = combined(out);
        let t = trim_str(all.as_str());
        if t.unicode_len() == 0 {
            let m = String::from_str("NPM_INSTALL_FAILED::npm install failed. Check logs for details.");
            (Vec::new(), Err(m))
        } else {
            let m = String::from_str("NPM_INSTALL_FAILED::npm install failed. Details: ").concat(t);
            let mut logs: Vec<String> = Vec::new();
            let line = String::from_str(t);
            let ghost line_view = line@;
            logs.push(line);
            proof {
                assert(logs.deep_view() =~= seq![line_view]);
            }
            (logs, Err(m))
        }
    }
}

} // verus!
