//! The readiness wait: repeated health probes at a fixed cadence under
//! one overall deadline. The probe itself is I/O; the decisions around it
//! are verified here.

use vstd::prelude::*;

verus! {

/// What one health probe attempt reported.
#[derive(Clone, Copy, PartialEq, Eq, Structural, Debug)]
pub enum ProbeOutcome {
    /// The round trip completed without error.
    Success,
    /// The connection or the call failed; the cause is not distinguished.
    Failure,
}

/// What the wait tells its driver after a probe.
#[derive(Clone, Copy, PartialEq, Eq, Structural, Debug)]
pub enum GateDecision {
    /// The target answered before the deadline: stop probing, report ready.
    Ready,
    /// Keep waiting: sleep one poll interval and probe again.
    Retry,
    /// The deadline passed without a successful probe.
    TimedOut,
}

/// The wait's configuration: probe cadence and overall deadline, both
/// in milliseconds.
pub struct HealthGate {
    pub poll_interval_millis: u64,
    pub timeout_millis: u64,
}

/// The decision for a probe that finished `elapsed` milliseconds
/// into the wait: a success before the deadline is final, the deadline
/// itself is final, everything else is retried.
pub open spec fn step_spec(gate: HealthGate, elapsed: int, outcome: ProbeOutcome) -> GateDecision {
    if elapsed >= gate.timeout_millis {
        GateDecision::TimedOut
    } else if outcome is Success {
        GateDecision::Ready
    } else {
        GateDecision::Retry
    }
}

/// The verdict over a whole probe trace, attempt `i` happening
/// `i * poll_interval_millis` into the wait: the first decision that is
/// not `Retry`, or `Retry` if the trace ends before one is reached.
pub open spec fn gate_run_from(gate: HealthGate, outcomes: Seq<ProbeOutcome>, i: int) -> GateDecision
    decreases outcomes.len() - i,
    when 0 <= i <= outcomes.len()
{
    if i == outcomes.len() {
        GateDecision::Retry
    } else {
        let d = step_spec(gate, i * gate.poll_interval_millis, outcomes[i]);
        if d is Retry {
            gate_run_from(gate, outcomes, i + 1)
        } else {
            d
        }
    }
}

/// The verdict over a whole probe trace, from the first attempt.
pub open spec fn gate_run(gate: HealthGate, outcomes: Seq<ProbeOutcome>) -> GateDecision {
    gate_run_from(gate, outcomes, 0)
}

impl HealthGate {
    /// One decision of the readiness wait, exactly `step_spec`.
    pub fn step(&self, elapsed_millis: u64, outcome: ProbeOutcome) -> (d: GateDecision)
        ensures
            d == step_spec(*self, elapsed_millis as int, outcome),
    {
        if elapsed_millis >= self.timeout_millis {
            GateDecision::TimedOut
        } else if matches!(outcome, ProbeOutcome::Success) {
            GateDecision::Ready
        } else {
            GateDecision::Retry
        }
    }

    /// The verdict over a recorded probe trace. The live driver performs
    /// one probe per loop turn instead; its decisions are the same.
    pub fn probe_trace(&self, outcomes: &Vec<ProbeOutcome>) -> (d: GateDecision)
        ensures
            d == gate_run(*self, outcomes@),
    {
        let mut i: usize = 0;
        while i < outcomes.len()
            invariant
                0 <= i <= outcomes.len(),
                gate_run(*self, outcomes@) == gate_run_from(*self, outcomes@, i as int),
            decreases outcomes.len() - i,
        {
            let d = match (i as u64).checked_mul(self.poll_interval_millis) {
                Some(elapsed) => self.step(elapsed, outcomes[i]),
                None => {
                    // The product exceeds u64::MAX, so the deadline, a u64,
                    // has certainly passed.
                    GateDecision::TimedOut
                },
            };
            assert(d == step_spec(*self, i * self.poll_interval_millis, outcomes@[i as int]));
            if !matches!(d, GateDecision::Retry) {
                return d;
            }
            i = i + 1;
        }
        GateDecision::Retry
    }
}

/// Readiness is reached when a target that failed its first probes starts
/// succeeding early enough: if the first success comes at attempt `k` and
/// `k` poll intervals fit under the deadline, the wait reports `Ready`.
pub proof fn lemma_gate_ready(gate: HealthGate, outcomes: Seq<ProbeOutcome>, k: int)
    requires
        0 <= k < outcomes.len(),
        outcomes[k] is Success,
        forall|i: int| 0 <= i < k ==> outcomes[i] is Failure,
        k * gate.poll_interval_millis < gate.timeout_millis,
    ensures
        gate_run(gate, outcomes) == GateDecision::Ready,
{
    lemma_gate_ready_from(gate, outcomes, k, 0);
}

proof fn lemma_gate_ready_from(gate: HealthGate, outcomes: Seq<ProbeOutcome>, k: int, i: int)
    requires
        0 <= i <= k < outcomes.len(),
        outcomes[k] is Success,
        forall|j: int| i <= j < k ==> outcomes[j] is Failure,
        k * gate.poll_interval_millis < gate.timeout_millis,
    ensures
        gate_run_from(gate, outcomes, i) == GateDecision::Ready,
    decreases k - i,
{
    vstd::arithmetic::mul::lemma_mul_inequality(i, k, gate.poll_interval_millis as int);
    if i < k {
        lemma_gate_ready_from(gate, outcomes, k, i + 1);
    }
}

/// A target that never succeeds leads to `TimedOut`, and to nothing else,
/// once the trace reaches the deadline.
pub proof fn lemma_gate_times_out(gate: HealthGate, outcomes: Seq<ProbeOutcome>, k: int)
    requires
        0 <= k < outcomes.len(),
        forall|i: int| 0 <= i < outcomes.len() ==> outcomes[i] is Failure,
        k * gate.poll_interval_millis >= gate.timeout_millis,
    ensures
        gate_run(gate, outcomes) == GateDecision::TimedOut,
{
    lemma_gate_times_out_from(gate, outcomes, k, 0);
}

proof fn lemma_gate_times_out_from(gate: HealthGate, outcomes: Seq<ProbeOutcome>, k: int, i: int)
    requires
        0 <= i <= k < outcomes.len(),
        forall|j: int| i <= j < outcomes.len() ==> outcomes[j] is Failure,
        k * gate.poll_interval_millis >= gate.timeout_millis,
    ensures
        gate_run_from(gate, outcomes, i) == GateDecision::TimedOut,
    decreases k - i,
{
    if i * gate.poll_interval_millis >= gate.timeout_millis {
    } else if i < k {
        lemma_gate_times_out_from(gate, outcomes, k, i + 1);
    } else {
    }
}

} // verus!
