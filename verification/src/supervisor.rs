//! The process supervisor's state and launch decisions: the single-slot
//! cell that owns at most one live child process (and, on the job-object
//! platform, its isolation handle), the refusal of a second launch,
//! the construction of the server's argument list and environment, the
//! rolling log-file name, and the graceful-then-forced teardown policy.
//! The unverified shell spawns, signals, and waits; it takes and replaces
//! the slot's contents only through the operations here, under its lock.

use vstd::prelude::*;
use vstd::string::StrSliceExecFns;
use vstd::string::StringExecFns;
use crate::text::{concat3, dec_str_spec, str_eq, u64_to_string};

verus! {

/// A live child process handle, managed by the async runtime.
#[verifier::external_type_specification]
#[verifier::external_body]
pub struct ExChild(tokio::process::Child);

/// The process-wide supervisor state: at most one live child process and,
/// on the job-object platform, the isolation handle bound to it (held as
/// the raw handle value). Mutated only by a spawn and by shutdown.
pub struct SupervisorState {
    pub child: Option<tokio::process::Child>,
    pub job: Option<u64>,
}

/// What a launch attempt is told while a child is tracked.
pub open spec fn start_refusal_spec(s: SupervisorState) -> Option<Seq<char>> {
    if s.child is Some {
        Some("WeylandTavern is already running."@)
    } else {
        None
    }
}

impl SupervisorState {
    /// The state after a shutdown: both handles released.
    pub open spec fn stopped(self) -> SupervisorState {
        SupervisorState { child: None, job: None }
    }

    /// A fresh supervisor tracks nothing.
    pub fn new() -> (r: SupervisorState)
        ensures
            r.child is None,
            r.job is None,
    {
        SupervisorState { child: None, job: None }
    }

    /// Whether a child process is currently tracked.
    pub fn is_running(&self) -> (r: bool)
        ensures
            r == (self.child is Some),
    {
        self.child.is_some()
    }

    /// Refuses a new launch while a child is tracked: the no-op message to
    /// report, or `None` when the launch may proceed.
    pub fn start_refusal(&self) -> (r: Option<String>)
        ensures
            match start_refusal_spec(*self) {
                Some(m) => r matches Some(s) && s@ == m,
                None => r is None,
            },
    {
        if self.child.is_some() {
            Some(String::from_str("WeylandTavern is already running."))
        } else {
            None
        }
    }

    /// Tracks a freshly spawned child. A spawn is only possible through
    /// here, and only into an empty slot.
    pub fn attach_child(&mut self, c: tokio::process::Child)
        requires
            old(self).child is None,
        ensures
            final(self).child == Some(c),
            final(self).job == old(self).job,
    {
        self.child = Some(c);
    }

    /// Tracks the isolation handle bound to the spawned child, replacing
    /// any lingering one.
    pub fn set_job(&mut self, job: u64)
        ensures
            final(self).child == old(self).child,
            final(self).job == Some(job),
    {
        self.job = Some(job);
    }

    /// Takes both handles for teardown, leaving the slot empty. With no
    /// tracked process this yields nothing and is harmless.
    pub fn take_for_shutdown(&mut self) -> (r: (Option<tokio::process::Child>, Option<u64>))
        ensures
            *final(self) == old(self).stopped(),
            r.0 == old(self).child,
            r.1 == old(self).job,
    {
        let mut child: Option<tokio::process::Child> = None;
        core::mem::swap(&mut child, &mut self.child);
        let mut job: Option<u64> = None;
        core::mem::swap(&mut job, &mut self.job);
        (child, job)
    }
}

/// Shutdown is idempotent: tearing down an already-stopped supervisor
/// changes nothing and yields no process or handle to release.
pub proof fn lemma_stop_idempotent(s: SupervisorState)
    ensures
        s.stopped().stopped() == s.stopped(),
        s.stopped().child is None,
        s.stopped().job is None,
{
}

/// While a child is tracked, a new launch is refused as a no-op with the
/// already-running report, and no second child can be
/// attached, since attaching requires the slot to be empty.
pub proof fn lemma_start_refused_while_running(s: SupervisorState)
    requires
        s.child is Some,
    ensures
        start_refusal_spec(s) matches Some(m) && m == "WeylandTavern is already running."@,
{
}

/// Whether one of the argument strings is exactly `x`.
pub open spec fn seq_has(args: Seq<Seq<char>>, x: Seq<char>) -> bool {
    exists|i: int| 0 <= i < args.len() && args[i] == x
}

fn vec_has(args: &Vec<String>, x: &str) -> (r: bool)
    ensures
        r == seq_has(args.deep_view(), x@),
{
    let n = args.len();
    let mut i: usize = 0;
    while i < n
        invariant
            0 <= i <= n,
            n == args@.len(),
            forall|k: int| 0 <= k < i ==> args.deep_view()[k] != x@,
        decreases n - i,
    {
        if str_eq(args[i].as_str(), x) {
            proof {
                assert(args.deep_view()[i as int] == x@);
            }
            return true;
        }
        i = i + 1;
    }
    false
}

/// The server's argument list after injecting the listen flags: each of
/// `--listen true`, `--listen-host`, `--listen-port` and `--no-open` is
/// appended only when the list so far does not already carry the flag, so
/// caller-supplied overrides always win.
pub open spec fn augmented_args_spec(
    args: Seq<Seq<char>>,
    host: Seq<char>,
    port_str: Seq<char>,
) -> Seq<Seq<char>> {
    let a1 = if seq_has(args, "--listen"@) {
        args
    } else {
        args.push("--listen"@).push("true"@)
    };
    let a2 = if seq_has(a1, "--listen-host"@) {
        a1
    } else {
        a1.push("--listen-host"@).push(host)
    };
    let a3 = if seq_has(a2, "--listen-port"@) {
        a2
    } else {
        a2.push("--listen-port"@).push(port_str)
    };
    if seq_has(a3, "--no-open"@) {
        a3
    } else {
        a3.push("--no-open"@)
    }
}

/// Injects the listen flags into the caller-supplied extra arguments.
pub fn augment_server_args(extra: Vec<String>, host: &str, port: u16) -> (r: Vec<String>)
    ensures
        r.deep_view() == augmented_args_spec(extra.deep_view(), host@, dec_str_spec(port as nat)),
{
    let ghost args0 = extra.deep_view();
    let mut args = extra;
    if !vec_has(&args, "--listen") {
        args.push(String::from_str("--listen"));
        args.push(String::from_str("true"));
    }
    let ghost a1 = if seq_has(args0, "--listen"@) {
        args0
    } else {
        args0.push("--listen"@).push("true"@)
    };
    proof {
        assert(args.deep_view() =~~= a1);
    }
    if !vec_has(&args, "--listen-host") {
        args.push(String::from_str("--listen-host"));
        args.push(String::from_str(host));
    }
    let ghost a2 = if seq_has(a1, "--listen-host"@) {
        a1
    } else {
        a1.push("--listen-host"@).push(host@)
    };
    proof {
        assert(args.deep_view() =~~= a2);
    }
    if !vec_has(&args, "--listen-port") {
        args.push(String::from_str("--listen-port"));
        args.push(u64_to_string(port as u64));
    }
    let ghost a3 = if seq_has(a2, "--listen-port"@) {
        a2
    } else {
        a2.push("--listen-port"@).push(dec_str_spec(port as nat))
    };
    proof {
        assert(args.deep_view() =~~= a3);
    }
    if !vec_has(&args, "--no-open") {
        args.push(String::from_str("--no-open"));
    }
    proof {
        assert(args.deep_view() =~~= augmented_args_spec(args0, host@, dec_str_spec(port as nat)));
    }
    args
}

/// The environment overrides forcing non-interactive, no-auto-open-browser
/// behaviour on every tool and server invocation.
pub fn node_env_overrides() -> (r: Vec<(String, String)>)
    ensures
        r@.len() == 3,
        r@[0].0@ == "NODE_ENV"@ && r@[0].1@ == "production"@,
        r@[1].0@ == "NO_BROWSER"@ && r@[1].1@ == "1"@,
        r@[2].0@ == "BROWSER"@ && r@[2].1@ == "none"@,
{
    let mut r: Vec<(String, String)> = Vec::new();
    r.push((String::from_str("NODE_ENV"), String::from_str("production")));
    r.push((String::from_str("NO_BROWSER"), String::from_str("1")));
    r.push((String::from_str("BROWSER"), String::from_str("none")));
    r
}

/// The environment overrides for the server spawn itself: the
/// non-interactive set, plus the negotiated port injected under both names
/// the server understands.
pub fn server_env_overrides(port: u16) -> (r: Vec<(String, String)>)
    ensures
        r@.len() == 5,
        r@[0].0@ == "NODE_ENV"@ && r@[0].1@ == "production"@,
        r@[1].0@ == "NO_BROWSER"@ && r@[1].1@ == "1"@,
        r@[2].0@ == "BROWSER"@ && r@[2].1@ == "none"@,
        r@[3].0@ == "PORT"@ && r@[3].1@ == dec_str_spec(port as nat),
        r@[4].0@ == "ST_PORT"@ && r@[4].1@ == dec_str_spec(port as nat),
{
    let mut r = node_env_overrides();
    let p = u64_to_string(port as u64);
    r.push((String::from_str("PORT"), p.clone()));
    r.push((String::from_str("ST_PORT"), p));
    r
}

/// Relies on chrono's `Local::now` and its date formatting: the current
/// local date as a year-month-day stamp of at least eight characters
/// (four-or-more year digits, two month digits, two day digits).
#[verifier::external_body]
fn local_datestamp() -> (r: String)
    ensures
        r@.len() >= 8,
{
    chrono::Local::now().format("%Y%m%d").to_string()
}

/// The rolling server log's file name for a given date stamp.
pub fn log_file_name(stamp: &str) -> (r: String)
    ensures
        r@ == "server-"@ + stamp@ + ".log"@,
{
    concat3("server-", stamp, ".log")
}

/// The rolling server log's file name for today, `server-` then the local
/// date stamp then `.log`.
pub fn daily_log_name() -> (r: String)
    ensures
        r@.len() >= 19,
        r@.subrange(0, 7) == "server-"@,
        r@.subrange(r@.len() - 4, r@.len() as int) == ".log"@,
{
    let stamp = local_datestamp();
    let r = log_file_name(stamp.as_str());
    proof {
        reveal_strlit("server-");
        reveal_strlit(".log");
        assert(r@.subrange(0, 7) =~= "server-"@);
        assert(r@.subrange(r@.len() - 4, r@.len() as int) =~= ".log"@);
    }
    r
}

/// The message logged before the server spawn.
pub fn starting_message() -> (r: String)
    ensures
        r@ == "Starting WeylandTavern..."@,
{
    String::from_str("Starting WeylandTavern...")
}

/// The message logged before the install step runs.
pub fn installing_message() -> (r: String)
    ensures
        r@ == "Installing Node modules..."@,
{
    String::from_str("Installing Node modules...")
}

/// The message logged when a forced launch skips the install step.
pub fn install_skip_message() -> (r: String)
    ensures
        r@ == "Skipping npm install after previous failure at user request."@,
{
    String::from_str("Skipping npm install after previous failure at user request.")
}

/// Whether the launch runs the install step: it must be required by the
/// staleness check and not bypassed by a forced start. A forced bypass of a
/// required install is noted for the log.
pub fn install_decision(needs_install: bool, force_start: bool) -> (r: (bool, Option<String>))
    ensures
        r.0 == (needs_install && !force_start),
        needs_install && force_start ==> (r.1 matches Some(n)
            && n@ == "Skipping npm install after previous failure at user request."@),
        !(needs_install && force_start) ==> r.1 is None,
{
    if needs_install && force_start {
        (false, Some(install_skip_message()))
    } else {
        (needs_install && !force_start, None)
    }
}

/// The URL probed by the health check.
pub fn health_url(host: &str, port: u16) -> (r: String)
    ensures
        r@ == "http://"@ + host@ + ":"@ + dec_str_spec(port as nat) + "/"@,
{
    let mut r = String::from_str("http://");
    r.append(host);
    r.append(":");
    let p = u64_to_string(port as u64);
    r.append(p.as_str());
    r.append("/");
    proof {
        assert(r@ =~= "http://"@ + host@ + ":"@ + dec_str_spec(port as nat) + "/"@);
    }
    r
}

/// The announcement once the server is health-confirmed.
pub fn ready_message(host: &str, port: u16) -> (r: String)
    ensures
        r@ == "WeylandTavern is now active on "@ + host@ + ":"@ + dec_str_spec(port as nat)
            + " (By default)"@,
{
    let mut r = String::from_str("WeylandTavern is now active on ");
    r.append(host);
    r.append(":");
    let p = u64_to_string(port as u64);
    r.append(p.as_str());
    r.append(" (By default)");
    proof {
        assert(r@ =~= "WeylandTavern is now active on "@ + host@ + ":"@ + dec_str_spec(
            port as nat,
        ) + " (By default)"@);
    }
    r
}

/// The error reported — before automatic teardown — when the health check
/// exhausts its budget.
pub fn health_failure_message(url: &str) -> (r: String)
    ensures
        r@ == "Failed to verify server health at "@ + url@ + ". Please check the logs."@,
{
    concat3("Failed to verify server health at ", url, ". Please check the logs.")
}

/// How the teardown acts on the process tree.
pub enum TermAction {
    /// Send the interrupt signal to the whole process group.
    GroupInterrupt,
    /// Send the kill signal to the whole process group.
    GroupKill,
    /// Kill the lone tracked process directly.
    DirectKill,
    /// Terminate through the isolation object, which guarantees descendant
    /// cleanup.
    TerminateJob,
}

/// How long, in seconds, the teardown waits after the graceful signal
/// before escalating.
pub const GRACEFUL_WAIT_SECS: u64 = 10;

/// The first teardown move. On the job-object platform the isolation
/// object is used when held, else the lone handle is killed directly. On
/// the process-group platform the whole group is interrupted when its id
/// is known, else the lone handle is killed directly.
pub fn initial_term_action(job_platform: bool, has_job: bool, pid_known: bool) -> (r: TermAction)
    ensures
        job_platform && has_job ==> r is TerminateJob,
        job_platform && !has_job ==> r is DirectKill,
        !job_platform && pid_known ==> r is GroupInterrupt,
        !job_platform && !pid_known ==> r is DirectKill,
{
    if job_platform {
        if has_job {
            TermAction::TerminateJob
        } else {
            TermAction::DirectKill
        }
    } else {
        if pid_known {
            TermAction::GroupInterrupt
        } else {
            TermAction::DirectKill
        }
    }
}

/// After the graceful interrupt: escalate to a group kill only when the
/// child has not exited within the bounded wait.
pub fn escalation_action(exited_in_time: bool) -> (r: Option<TermAction>)
    ensures
        exited_in_time <==> r is None,
        !exited_in_time ==> r == Some(TermAction::GroupKill),
{
    if exited_in_time {
        None
    } else {
        Some(TermAction::GroupKill)
    }
}

} // verus!
