//! Bounded-retry health probe.
//!
//! A probe polls a single link metric on a fixed interval. Every successful
//! poll resets a consecutive-failure counter and produces a reading. A failed
//! poll is absorbed silently while fewer than [`PROBE_FAILURE_LIMIT`]
//! consecutive failures have occurred; the failure that completes the limit
//! produces an error and terminates the probe for good. This is the only
//! retry policy in the system with a hard ceiling: it absorbs transient
//! radio or Wi-Fi noise without flapping the link-down signal.

use vstd::prelude::*;

verus! {

/// Number of consecutive failed polls after which the probe terminates.
pub const PROBE_FAILURE_LIMIT: u8 = 3;

/// Deadline in milliseconds for a single poll of the link.
pub const PROBE_DEADLINE_MS: u64 = 500;

/// Interval in milliseconds between two polls of the link.
pub const PROBE_INTERVAL_MS: u64 = 1000;

/// What one step of the probe produces.
#[derive(Clone, Copy, Debug, PartialEq, Eq, Structural)]
pub enum ProbeStep {
    /// The poll succeeded: produce the reading.
    Produce,
    /// The poll failed but the failure budget is not exhausted: produce
    /// nothing and poll again.
    Retry,
    /// The poll failed and completed the failure budget: produce the error
    /// and terminate the probe.
    Fail,
}

/// The retry state of one health probe.
#[derive(Clone, Copy, Debug, PartialEq, Eq, Structural)]
pub struct Probe {
    /// Consecutive failed polls absorbed so far.
    pub failures: u8,
    /// Whether the probe is still producing; once false, it never resumes.
    pub live: bool,
}

/// A probe is well formed when a live probe still has failure budget left
/// and a terminated probe has exhausted it exactly.
pub open spec fn probe_wf(p: Probe) -> bool {
    if p.live {
        p.failures < PROBE_FAILURE_LIMIT
    } else {
        p.failures == PROBE_FAILURE_LIMIT
    }
}

/// One step of the probe on the outcome of a poll, at the specification
/// level. A terminated probe stays terminated under further failures.
pub open spec fn spec_probe_step(p: Probe, success: bool) -> (Probe, ProbeStep) {
    if success {
        (Probe { failures: 0, live: true }, ProbeStep::Produce)
    } else if p.failures + 1 < PROBE_FAILURE_LIMIT {
        (Probe { failures: (p.failures + 1) as u8, live: true }, ProbeStep::Retry)
    } else {
        (Probe { failures: PROBE_FAILURE_LIMIT, live: false }, ProbeStep::Fail)
    }
}

/// The probe state after `n` further consecutive failed polls.
pub open spec fn spec_run_failures(p: Probe, n: nat) -> Probe
    decreases n,
{
    if n == 0 {
        p
    } else {
        spec_probe_step(spec_run_failures(p, (n - 1) as nat), false).0
    }
}

impl Probe {
    /// A fresh probe: no failures absorbed, producing.
    pub fn new() -> (p: Probe)
        ensures
            p == (Probe { failures: 0, live: true }),
            probe_wf(p),
    {
        Probe { failures: 0, live: true }
    }

    /// Advances the probe by the outcome of one poll. On success the
    /// failure counter resets to zero and a reading is produced; on failure
    /// the counter grows, silently while below the limit, and the step that
    /// completes the limit produces the error and terminates the probe.
    /// A terminated probe cannot be stepped at all.
    pub fn step(&mut self, success: bool) -> (out: ProbeStep)
        requires
            probe_wf(*old(self)),
            old(self).live,
        ensures
            probe_wf(*final(self)),
            (*final(self), out) == spec_probe_step(*old(self), success),
            success ==> out == ProbeStep::Produce && final(self).failures == 0 && final(self).live,
            !success && old(self).failures + 1 < PROBE_FAILURE_LIMIT ==> out == ProbeStep::Retry
                && final(self).failures == old(self).failures + 1 && final(self).live,
            !success && old(self).failures + 1 >= PROBE_FAILURE_LIMIT ==> out == ProbeStep::Fail
                && !final(self).live,
    {
        if success {
            self.failures = 0;
            self.live = true;
            ProbeStep::Produce
        } else if self.failures + 1 < PROBE_FAILURE_LIMIT {
            self.failures = self.failures + 1;
            ProbeStep::Retry
        } else {
            self.failures = PROBE_FAILURE_LIMIT;
            self.live = false;
            ProbeStep::Fail
        }
    }
}

/// After `n` consecutive failures, fewer than the limit, the probe is still
/// live and has counted exactly those failures.
pub proof fn lemma_probe_state_below_limit(p: Probe, n: nat)
    requires
        p.live,
        p.failures == 0,
        n < PROBE_FAILURE_LIMIT,
    ensures
        spec_run_failures(p, n).live,
        spec_run_failures(p, n).failures == n,
    decreases n,
{
    if n > 0 {
        lemma_probe_state_below_limit(p, (n - 1) as nat);
    }
}

/// Fewer consecutive failures than the limit keep the probe silent:
/// starting from a probe with an empty failure counter, each of the first
/// `PROBE_FAILURE_LIMIT - 1` failures produces no output.
pub proof fn lemma_probe_silent_below_limit(p: Probe)
    requires
        p.live,
        p.failures == 0,
    ensures
        forall|k: nat|
            k + 1 < PROBE_FAILURE_LIMIT ==> #[trigger] spec_probe_step(
                spec_run_failures(p, k),
                false,
            ).1 == ProbeStep::Retry,
{
    assert forall|k: nat| k + 1 < PROBE_FAILURE_LIMIT implies #[trigger] spec_probe_step(
        spec_run_failures(p, k),
        false,
    ).1 == ProbeStep::Retry by {
        lemma_probe_state_below_limit(p, k);
    }
}

/// The failure that completes the limit produces the error output and
/// terminates the probe; every longer run of consecutive failures leaves it
/// terminated, so the sequence never resumes.
pub proof fn lemma_probe_fails_at_limit(p: Probe, n: nat)
    requires
        p.live,
        p.failures == 0,
        n >= PROBE_FAILURE_LIMIT,
    ensures
        spec_probe_step(spec_run_failures(p, (PROBE_FAILURE_LIMIT - 1) as nat), false).1
            == ProbeStep::Fail,
        !spec_run_failures(p, n).live,
        spec_run_failures(p, n).failures == PROBE_FAILURE_LIMIT,
    decreases n,
{
    lemma_probe_state_below_limit(p, (PROBE_FAILURE_LIMIT - 1) as nat);
    if n > PROBE_FAILURE_LIMIT {
        lemma_probe_fails_at_limit(p, (n - 1) as nat);
    }
}

} // verus!
