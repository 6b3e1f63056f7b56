//! Health-check polling: a bounded number of probes against the freshly
//! spawned server, with a linearly increasing delay between attempts. The
//! unverified shell performs each HTTP probe and sleep; the decision of
//! whether to stop, retry, or give up is made here. A probe that fails with
//! a network error counts as "not yet healthy", never as fatal.

use vstd::prelude::*;

verus! {

/// The probe budget of one polling session.
pub const HEALTH_ATTEMPTS: u64 = 30;

/// The delay, in milliseconds, slept after the probe numbered `attempt`
/// (counting from zero) fails: a 500 ms base plus 100 ms per attempt.
pub open spec fn health_delay_spec(attempt: int) -> int {
    500 + attempt * 100
}

/// The inter-attempt delay never decreases over a session.
pub proof fn lemma_delay_monotone(a: int, b: int)
    requires
        0 <= a <= b,
    ensures
        health_delay_spec(a) <= health_delay_spec(b),
{
}

/// What the polling driver does after one probe.
pub enum ProbeStep {
    /// The endpoint answered with success: report the server healthy.
    Ready,
    /// Sleep this many milliseconds, then probe again.
    RetryAfter(u64),
    /// The budget is exhausted: report the server unhealthy.
    GiveUp,
}

/// Decides the next action after probe number `completed` (counting from
/// zero) returned `ok`.
pub fn health_step(completed: u64, ok: bool) -> (r: ProbeStep)
    requires
        completed < HEALTH_ATTEMPTS,
    ensures
        r is Ready <==> ok,
        r is GiveUp <==> (!ok && completed == HEALTH_ATTEMPTS - 1),
        r matches ProbeStep::RetryAfter(d) ==> d == health_delay_spec(completed as int),
{
    if ok {
        ProbeStep::Ready
    } else if completed < HEALTH_ATTEMPTS - 1 {
        ProbeStep::RetryAfter(500 + completed * 100)
    } else {
        ProbeStep::GiveUp
    }
}

/// The index of the first successful probe, or the length when none was.
pub open spec fn first_success(s: Seq<bool>) -> int
    decreases s.len(),
{
    if s.len() == 0 {
        0
    } else if s[0] {
        0
    } else {
        1 + first_success(s.drop_first())
    }
}

pub proof fn lemma_first_success(s: Seq<bool>)
    ensures
        0 <= first_success(s) <= s.len(),
        first_success(s) < s.len() ==> s[first_success(s)],
        forall|k: int| 0 <= k < first_success(s) ==> !s[k],
    decreases s.len(),
{
    if s.len() > 0 && !s[0] {
        let t = s.drop_first();
        lemma_first_success(t);
        assert(forall|k: int| 1 <= k < first_success(s) ==> s[k] == t[k - 1]);
        if first_success(s) < s.len() {
            assert(s[first_success(s)] == t[first_success(t)]);
        }
    }
}

proof fn lemma_first_success_at(s: Seq<bool>, k: int)
    requires
        0 <= k <= s.len(),
        forall|j: int| 0 <= j < k ==> !s[j],
        k < s.len() ==> s[k],
    ensures
        first_success(s) == if k < s.len() {
            k
        } else {
            s.len() as int
        },
{
    lemma_first_success(s);
    let f = first_success(s);
    if k < s.len() {
        if f < k {
            assert(s[f]);
        }
        if f > k {
            assert(!s[k]);
        }
    } else {
        if f < s.len() {
            assert(s[f]);
        }
    }
}

/// One polling session, evaluated against recorded probe outcomes:
/// `outcomes[i]` tells whether probe `i` would succeed. The session reports
/// healthy exactly when one of the first thirty probes succeeds, after
/// first-success-plus-one attempts; otherwise it reports unhealthy after
/// exhausting the thirty-probe budget.
pub fn poll_outcome(outcomes: &Vec<bool>) -> (r: (bool, u64))
    requires
        outcomes@.len() >= HEALTH_ATTEMPTS,
    ensures
        ({
            let f = first_success(outcomes@.take(HEALTH_ATTEMPTS as int));
            if f < HEALTH_ATTEMPTS {
                r.0 == true && r.1 == f + 1
            } else {
                r.0 == false && r.1 == HEALTH_ATTEMPTS
            }
        }),
{
    let ghost capped = outcomes@.take(HEALTH_ATTEMPTS as int);
    let mut i: u64 = 0;
    while i < HEALTH_ATTEMPTS
        invariant
            0 <= i <= HEALTH_ATTEMPTS,
            outcomes@.len() >= HEALTH_ATTEMPTS,
            capped == outcomes@.take(HEALTH_ATTEMPTS as int),
            forall|k: int| 0 <= k < i ==> !capped[k],
        decreases HEALTH_ATTEMPTS - i,
    {
        let ok = outcomes[i as usize];
        proof {
            assert(capped[i as int] == outcomes@[i as int]);
        }
        match health_step(i, ok) {
            ProbeStep::Ready => {
                proof {
                    lemma_first_success_at(capped, i as int);
                }
                return (true, i + 1);
            },
            ProbeStep::RetryAfter(_) => {
            },
            ProbeStep::GiveUp => {
                proof {
                    lemma_first_success_at(capped, HEALTH_ATTEMPTS as int);
                }
                return (false, HEALTH_ATTEMPTS);
            },
        }
        i = i + 1;
    }
    proof {
        lemma_first_success_at(capped, HEALTH_ATTEMPTS as int);
    }
    (false, HEALTH_ATTEMPTS)
}

/// A session whose probes fail up to `k` and succeed at probe `k` (within
/// the budget) reports healthy after exactly `k + 1` attempts.
pub proof fn lemma_poll_first_success(outcomes: Seq<bool>, k: int)
    requires
        outcomes.len() >= HEALTH_ATTEMPTS,
        0 <= k < HEALTH_ATTEMPTS,
        outcomes[k],
        forall|j: int| 0 <= j < k ==> !outcomes[j],
    ensures
        first_success(outcomes.take(HEALTH_ATTEMPTS as int)) == k,
{
    let capped = outcomes.take(HEALTH_ATTEMPTS as int);
    assert(forall|j: int| 0 <= j < k ==> capped[j] == outcomes[j]);
    lemma_first_success_at(capped, k);
}

} // verus!
