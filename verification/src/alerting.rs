//! Alert hysteresis for CPU and memory usage.
//!
//! The float comparisons against the configured thresholds are made by the
//! caller, which hands each evaluation the outcome as a reading; this module
//! decides when an alert is raised and when it recovers.

use vstd::prelude::*;

verus! {

/// How one CPU usage sample compares with the configured thresholds.
#[derive(Debug, Clone, Copy, PartialEq, Eq, Structural)]
pub struct CpuReading {
    /// The usage is strictly above the high threshold.
    pub above_high: bool,
    /// The usage is at or below the recovery threshold.
    pub within_recover: bool,
}

/// How one memory sample compares with the configured threshold.
#[derive(Debug, Clone, Copy, PartialEq, Eq, Structural)]
pub enum MemoryReading {
    /// The total memory was reported as zero: no percentage exists.
    Unavailable,
    /// The used percentage is strictly above the threshold.
    Above,
    /// The used percentage is at or below the threshold.
    NotAbove,
}

/// What one evaluation did to an alert.
#[derive(Debug, Clone, Copy, PartialEq, Eq, Structural)]
pub enum AlertTransition {
    /// Nothing to report.
    Quiet,
    /// The alert became active.
    Triggered,
    /// The active alert recovered.
    Recovered,
}

/// The abstract state of an evaluator.
pub struct AlertState {
    /// How many consecutive high samples raise the CPU alert.
    pub sustained: nat,
    /// The CPU alert is active.
    pub cpu_active: bool,
    /// Consecutive CPU samples above the high threshold seen so far.
    pub high_count: nat,
    /// The memory alert is active.
    pub memory_active: bool,
}

/// The number of consecutive high samples that raises the CPU alert: a
/// configured count of zero acts as one, since the count is raised before it
/// is compared.
pub open spec fn effective_sustained(sustained: nat) -> nat {
    if sustained == 0 { 1 } else { sustained }
}

/// One CPU evaluation.
pub open spec fn cpu_step(s: AlertState, r: CpuReading) -> (AlertState, AlertTransition) {
    if s.cpu_active {
        if r.within_recover {
            (AlertState { cpu_active: false, high_count: 0, ..s }, AlertTransition::Recovered)
        } else {
            (s, AlertTransition::Quiet)
        }
    } else if r.above_high {
        let count = s.high_count + 1;
        if count >= s.sustained {
            (AlertState { cpu_active: true, high_count: count, ..s }, AlertTransition::Triggered)
        } else {
            (AlertState { high_count: count, ..s }, AlertTransition::Quiet)
        }
    } else {
        (AlertState { high_count: 0, ..s }, AlertTransition::Quiet)
    }
}

/// One memory evaluation.
pub open spec fn memory_step(s: AlertState, r: MemoryReading) -> (AlertState, AlertTransition) {
    match r {
        MemoryReading::Unavailable => (s, AlertTransition::Quiet),
        MemoryReading::Above => if s.memory_active {
            (s, AlertTransition::Quiet)
        } else {
            (AlertState { memory_active: true, ..s }, AlertTransition::Triggered)
        },
        MemoryReading::NotAbove => if s.memory_active {
            (AlertState { memory_active: false, ..s }, AlertTransition::Recovered)
        } else {
            (s, AlertTransition::Quiet)
        },
    }
}

/// The state every reachable evaluator is in: the high-sample count never
/// passes the effective sustained count, and stays below it while no CPU
/// alert is active.
pub open spec fn state_wf(s: AlertState) -> bool {
    &&& s.high_count <= effective_sustained(s.sustained)
    &&& !s.cpu_active ==> s.high_count < effective_sustained(s.sustained)
    &&& s.sustained <= u32::MAX
}

/// Tracks the CPU and memory alerts of a stream of samples.
pub struct AlertEvaluator {
    cpu_sustained_samples: u32,
    cpu_active: bool,
    consecutive_high_samples: u32,
    memory_alert_active: bool,
}

impl AlertEvaluator {
    /// The abstract state.
    pub closed spec fn state(self) -> AlertState {
        AlertState {
            sustained: self.cpu_sustained_samples as nat,
            cpu_active: self.cpu_active,
            high_count: self.consecutive_high_samples as nat,
            memory_active: self.memory_alert_active,
        }
    }

    #[verifier::type_invariant]
    spec fn inv(self) -> bool {
        state_wf(self.state())
    }

    /// A fresh evaluator: no alert active and no high sample counted.
    pub fn new(cpu_sustained_samples: u32) -> (e: Self)
        ensures
            state_wf(e.state()),
            e.state() == (AlertState {
                sustained: cpu_sustained_samples as nat,
                cpu_active: false,
                high_count: 0,
                memory_active: false,
            }),
    {
        AlertEvaluator {
            cpu_sustained_samples,
            cpu_active: false,
            consecutive_high_samples: 0,
            memory_alert_active: false,
        }
    }

    /// Whether the CPU alert is active.
    pub fn cpu_alert_active(&self) -> (b: bool)
        ensures
            b == self.state().cpu_active,
    {
        self.cpu_active
    }

    /// Whether the memory alert is active.
    pub fn memory_alert_active(&self) -> (b: bool)
        ensures
            b == self.state().memory_active,
    {
        self.memory_alert_active
    }

    /// The consecutive CPU samples above the high threshold counted so far.
    pub fn consecutive_high_samples(&self) -> (n: u32)
        ensures
            n == self.state().high_count,
    {
        self.consecutive_high_samples
    }

    /// Evaluates one CPU sample.
    pub fn evaluate_cpu(&mut self, reading: CpuReading) -> (t: AlertTransition)
        ensures
            (final(self).state(), t) == cpu_step(old(self).state(), reading),
    {
        proof {
            use_type_invariant(&*self);
        }
        let sustained = self.cpu_sustained_samples;
        let memory = self.memory_alert_active;
        if self.cpu_active {
            if reading.within_recover {
                *self = AlertEvaluator {
                    cpu_sustained_samples: sustained,
                    cpu_active: false,
                    consecutive_high_samples: 0,
                    memory_alert_active: memory,
                };
                return AlertTransition::Recovered;
            }
            return AlertTransition::Quiet;
        }
        if reading.above_high {
            let count = self.consecutive_high_samples + 1;
            if count >= sustained {
                *self = AlertEvaluator {
                    cpu_sustained_samples: sustained,
                    cpu_active: true,
                    consecutive_high_samples: count,
                    memory_alert_active: memory,
                };
                return AlertTransition::Triggered;
            }
            *self = AlertEvaluator {
                cpu_sustained_samples: sustained,
                cpu_active: false,
                consecutive_high_samples: count,
                memory_alert_active: memory,
            };
            return AlertTransition::Quiet;
        }
        *self = AlertEvaluator {
            cpu_sustained_samples: sustained,
            cpu_active: false,
            consecutive_high_samples: 0,
            memory_alert_active: memory,
        };
        AlertTransition::Quiet
    }

    /// Evaluates one memory sample.
    pub fn evaluate_memory(&mut self, reading: MemoryReading) -> (t: AlertTransition)
        ensures
            (final(self).state(), t) == memory_step(old(self).state(), reading),
    {
        proof {
            use_type_invariant(&*self);
        }
        let sustained = self.cpu_sustained_samples;
        let cpu_active = self.cpu_active;
        let count = self.consecutive_high_samples;
        match reading {
            MemoryReading::Unavailable => AlertTransition::Quiet,
            MemoryReading::Above => {
                if self.memory_alert_active {
                    AlertTransition::Quiet
                } else {
                    *self = AlertEvaluator {
                        cpu_sustained_samples: sustained,
                        cpu_active,
                        consecutive_high_samples: count,
                        memory_alert_active: true,
                    };
                    AlertTransition::Triggered
                }
            },
            MemoryReading::NotAbove => {
                if self.memory_alert_active {
                    *self = AlertEvaluator {
                        cpu_sustained_samples: sustained,
                        cpu_active,
                        consecutive_high_samples: count,
                        memory_alert_active: false,
                    };
                    AlertTransition::Recovered
                } else {
                    AlertTransition::Quiet
                }
            },
        }
    }

    /// Evaluates one snapshot: its CPU sample, then its memory sample.
    pub fn evaluate_snapshot(&mut self, cpu: CpuReading, memory: MemoryReading) -> (t: (
        AlertTransition,
        AlertTransition,
    ))
        ensures
            t.0 == cpu_step(old(self).state(), cpu).1,
            (final(self).state(), t.1) == memory_step(cpu_step(old(self).state(), cpu).0, memory),
    {
        let c = self.evaluate_cpu(cpu);
        let m = self.evaluate_memory(memory);
        (c, m)
    }
}


/// The states and transitions of a run of CPU evaluations, the readings
/// taken in order.
pub open spec fn cpu_run(s: AlertState, rs: Seq<CpuReading>) -> (AlertState, Seq<AlertTransition>)
    decreases rs.len(),
{
    if rs.len() == 0 {
        (s, Seq::empty())
    } else {
        let before = cpu_run(s, rs.drop_last());
        let step = cpu_step(before.0, rs.last());
        (step.0, before.1.push(step.1))
    }
}

/// The states and transitions of a run of memory evaluations.
pub open spec fn memory_run(s: AlertState, rs: Seq<MemoryReading>) -> (
    AlertState,
    Seq<AlertTransition>,
)
    decreases rs.len(),
{
    if rs.len() == 0 {
        (s, Seq::empty())
    } else {
        let before = memory_run(s, rs.drop_last());
        let step = memory_step(before.0, rs.last());
        (step.0, before.1.push(step.1))
    }
}

/// Whether an alert is active after the transitions `ts`, starting from `active`.
pub open spec fn active_after(ts: Seq<AlertTransition>, active: bool) -> bool
    decreases ts.len(),
{
    if ts.len() == 0 {
        active
    } else {
        match ts.last() {
            AlertTransition::Triggered => true,
            AlertTransition::Recovered => false,
            AlertTransition::Quiet => active_after(ts.drop_last(), active),
        }
    }
}

/// The transitions alternate: an alert is only raised while none is active,
/// and only an active alert recovers.
pub open spec fn alternates(ts: Seq<AlertTransition>, active: bool) -> bool
    decreases ts.len(),
{
    if ts.len() == 0 {
        true
    } else {
        &&& alternates(ts.drop_last(), active)
        &&& match ts.last() {
            AlertTransition::Triggered => !active_after(ts.drop_last(), active),
            AlertTransition::Recovered => active_after(ts.drop_last(), active),
            AlertTransition::Quiet => true,
        }
    }
}

/// The number of readings at the end of `rs` that are above the high threshold.
pub open spec fn trailing_highs(rs: Seq<CpuReading>) -> nat
    decreases rs.len(),
{
    if rs.len() > 0 && rs.last().above_high {
        trailing_highs(rs.drop_last()) + 1
    } else {
        0
    }
}

/// Each evaluation keeps the evaluator's state well formed.
pub proof fn lemma_steps_keep_wf(s: AlertState, c: CpuReading, m: MemoryReading)
    requires
        state_wf(s),
    ensures
        state_wf(cpu_step(s, c).0),
        state_wf(memory_step(s, m).0),
{
}

/// CPU evaluations never change the memory alert, and memory evaluations
/// never change the CPU alert, its count or its configuration.
pub proof fn law_alerts_independent(s: AlertState, c: CpuReading, m: MemoryReading)
    ensures
        cpu_step(s, c).0.memory_active == s.memory_active,
        cpu_step(s, c).0.sustained == s.sustained,
        memory_step(s, m).0.cpu_active == s.cpu_active,
        memory_step(s, m).0.high_count == s.high_count,
        memory_step(s, m).0.sustained == s.sustained,
{
}

/// The memory alert depends on the memory samples alone: a sample above
/// the threshold raises it whenever it is not active and keeps it
/// otherwise; one at or below the threshold recovers it when active and
/// keeps it inactive otherwise; an unavailable sample changes nothing. The
/// CPU alert, its count and its configuration never matter and never change.
pub proof fn law_memory_alert_by_samples_alone(s: AlertState, r: MemoryReading)
    ensures
        memory_step(s, r).0.cpu_active == s.cpu_active,
        memory_step(s, r).0.high_count == s.high_count,
        memory_step(s, r).0.sustained == s.sustained,
        r == MemoryReading::Above && !s.memory_active ==> memory_step(s, r).1 == AlertTransition::Triggered
            && memory_step(s, r).0.memory_active,
        r == MemoryReading::Above && s.memory_active ==> memory_step(s, r).1 == AlertTransition::Quiet
            && memory_step(s, r).0.memory_active,
        r == MemoryReading::NotAbove && s.memory_active ==> memory_step(s, r).1
            == AlertTransition::Recovered && !memory_step(s, r).0.memory_active,
        r == MemoryReading::NotAbove && !s.memory_active ==> memory_step(s, r).1
            == AlertTransition::Quiet && !memory_step(s, r).0.memory_active,
        r == MemoryReading::Unavailable ==> memory_step(s, r) == (s, AlertTransition::Quiet),
{
}

/// Two evaluators that agree on the memory alert answer a memory sample
/// alike, whatever their CPU alerts are.
pub proof fn law_memory_step_ignores_cpu(s1: AlertState, s2: AlertState, r: MemoryReading)
    requires
        s1.memory_active == s2.memory_active,
    ensures
        memory_step(s1, r).1 == memory_step(s2, r).1,
        memory_step(s1, r).0.memory_active == memory_step(s2, r).0.memory_active,
{
    law_memory_alert_by_samples_alone(s1, r);
    law_memory_alert_by_samples_alone(s2, r);
}

/// Two evaluators that agree on the CPU alert, its count and its
/// configuration answer a CPU sample alike, whatever their memory alerts
/// are.
pub proof fn law_cpu_step_ignores_memory(s1: AlertState, s2: AlertState, r: CpuReading)
    requires
        s1.cpu_active == s2.cpu_active,
        s1.high_count == s2.high_count,
        s1.sustained == s2.sustained,
    ensures
        cpu_step(s1, r).1 == cpu_step(s2, r).1,
        cpu_step(s1, r).0.cpu_active == cpu_step(s2, r).0.cpu_active,
        cpu_step(s1, r).0.high_count == cpu_step(s2, r).0.high_count,
{
}

/// An active CPU alert recovers on a sample within the recovery threshold,
/// with the count started afresh, and stays active, count unchanged, on any
/// other sample; while no CPU alert is active, a sample not above the high
/// threshold starts the count afresh and a high one adds one to it, raising
/// the alert when the count reaches the configured number.
pub proof fn law_cpu_alert_by_samples(s: AlertState, r: CpuReading)
    ensures
        cpu_step(s, r).0.memory_active == s.memory_active,
        cpu_step(s, r).0.sustained == s.sustained,
        s.cpu_active && r.within_recover ==> cpu_step(s, r).1 == AlertTransition::Recovered
            && !cpu_step(s, r).0.cpu_active && cpu_step(s, r).0.high_count == 0,
        s.cpu_active && !r.within_recover ==> cpu_step(s, r).1 == AlertTransition::Quiet
            && cpu_step(s, r).0.cpu_active && cpu_step(s, r).0.high_count == s.high_count,
        !s.cpu_active && !r.above_high ==> cpu_step(s, r).1 == AlertTransition::Quiet
            && !cpu_step(s, r).0.cpu_active && cpu_step(s, r).0.high_count == 0,
        !s.cpu_active && r.above_high ==> cpu_step(s, r).0.high_count == s.high_count + 1
            && (cpu_step(s, r).0.cpu_active <==> s.high_count + 1 >= s.sustained)
            && (cpu_step(s, r).1 == AlertTransition::Triggered <==> s.high_count + 1 >= s.sustained)
            && (cpu_step(s, r).1 != AlertTransition::Recovered),
{
}

/// Over any run of CPU readings the alerts alternate: a CPU alert is raised
/// only while none is active, recovers only while one is active, and the
/// transitions say whether one is active at the end.
pub proof fn law_cpu_alerts_alternate(s: AlertState, rs: Seq<CpuReading>)
    ensures
        alternates(cpu_run(s, rs).1, s.cpu_active),
        active_after(cpu_run(s, rs).1, s.cpu_active) == cpu_run(s, rs).0.cpu_active,
        cpu_run(s, rs).1.len() == rs.len(),
    decreases rs.len(),
{
    if rs.len() > 0 {
        law_cpu_alerts_alternate(s, rs.drop_last());
        let ts = cpu_run(s, rs).1;
        assert(ts.drop_last() =~= cpu_run(s, rs.drop_last()).1);
    }
}

/// Over any run of memory readings the alerts alternate in the same way.
pub proof fn law_memory_alerts_alternate(s: AlertState, rs: Seq<MemoryReading>)
    ensures
        alternates(memory_run(s, rs).1, s.memory_active),
        active_after(memory_run(s, rs).1, s.memory_active) == memory_run(s, rs).0.memory_active,
        memory_run(s, rs).1.len() == rs.len(),
    decreases rs.len(),
{
    if rs.len() > 0 {
        law_memory_alerts_alternate(s, rs.drop_last());
        let ts = memory_run(s, rs).1;
        assert(ts.drop_last() =~= memory_run(s, rs.drop_last()).1);
    }
}

proof fn lemma_cpu_count_bounded_by_trailing(s: AlertState, rs: Seq<CpuReading>)
    requires
        state_wf(s),
        !s.cpu_active,
        s.high_count == 0,
    ensures
        state_wf(cpu_run(s, rs).0),
        !cpu_run(s, rs).0.cpu_active ==> cpu_run(s, rs).0.high_count <= trailing_highs(rs),
        cpu_run(s, rs).0.sustained == s.sustained,
        cpu_run(s, rs).1.len() == rs.len(),
    decreases rs.len(),
{
    if rs.len() > 0 {
        lemma_cpu_count_bounded_by_trailing(s, rs.drop_last());
    }
}

proof fn lemma_run_prefix(s: AlertState, rs: Seq<CpuReading>, t: int)
    requires
        0 <= t < rs.len(),
    ensures
        cpu_run(s, rs).1.len() == rs.len(),
        cpu_run(s, rs).1[t] == cpu_step(cpu_run(s, rs.take(t)).0, rs[t]).1,
    decreases rs.len(),
{
    if t == rs.len() - 1 {
        assert(rs.take(t) =~= rs.drop_last());
        lemma_run_len(s, rs.drop_last());
    } else {
        lemma_run_prefix(s, rs.drop_last(), t);
        assert(rs.drop_last().take(t) =~= rs.take(t));
        assert(rs.drop_last()[t] == rs[t]);
    }
}

proof fn lemma_run_len(s: AlertState, rs: Seq<CpuReading>)
    ensures
        cpu_run(s, rs).1.len() == rs.len(),
    decreases rs.len(),
{
    if rs.len() > 0 {
        lemma_run_len(s, rs.drop_last());
    }
}

proof fn lemma_trailing_highs(rs: Seq<CpuReading>, m: int, j: int)
    requires
        0 <= m <= trailing_highs(rs),
        rs.len() - m <= j < rs.len(),
    ensures
        rs[j].above_high,
    decreases rs.len(),
{
    lemma_trailing_highs_len(rs);
    assert(rs.last() == rs[rs.len() - 1]);
    if j < rs.len() - 1 {
        lemma_trailing_highs(rs.drop_last(), m - 1, j);
        assert(rs.drop_last()[j] == rs[j]);
    }
}

proof fn lemma_trailing_highs_len(rs: Seq<CpuReading>)
    ensures
        trailing_highs(rs) <= rs.len(),
    decreases rs.len(),
{
    if rs.len() > 0 {
        lemma_trailing_highs_len(rs.drop_last());
    }
}

/// A CPU alert is raised only after the configured number of consecutive
/// samples (at least one) above the high threshold: from an evaluator with
/// no alert and no counted sample, the readings that end with the one that
/// triggers are all above the high threshold, `sustained` of them.
pub proof fn law_cpu_alert_needs_sustained_highs(s: AlertState, rs: Seq<CpuReading>, t: int)
    requires
        state_wf(s),
        !s.cpu_active,
        s.high_count == 0,
        0 <= t < rs.len(),
        cpu_run(s, rs).1[t] == AlertTransition::Triggered,
    ensures
        t + 1 >= effective_sustained(s.sustained),
        forall|j: int|
            t + 1 - effective_sustained(s.sustained) <= j <= t ==> (#[trigger] rs[j]).above_high,
{
    lemma_run_prefix(s, rs, t);
    let p = rs.take(t);
    lemma_cpu_count_bounded_by_trailing(s, p);
    let q = rs.take(t + 1);
    assert(q.drop_last() =~= p);
    assert(q.last() == rs[t]);
    let eff = effective_sustained(s.sustained);
    assert(trailing_highs(q) >= eff);
    lemma_trailing_highs_len(q);
    assert forall|j: int| t + 1 - eff <= j <= t implies (#[trigger] rs[j]).above_high by {
        lemma_trailing_highs(q, eff as int, j);
        assert(q[j] == rs[j]);
    }
}

/// From an evaluator with no alert and no counted sample, `sustained` (at
/// least one) consecutive samples above the high threshold raise the CPU
/// alert exactly at the last of them, and the earlier ones stay quiet.
pub proof fn law_cpu_sustained_highs_raise_alert(s: AlertState, rs: Seq<CpuReading>)
    requires
        state_wf(s),
        !s.cpu_active,
        s.high_count == 0,
        rs.len() == effective_sustained(s.sustained),
        forall|j: int| 0 <= j < rs.len() ==> (#[trigger] rs[j]).above_high,
    ensures
        cpu_run(s, rs).1.len() == rs.len(),
        cpu_run(s, rs).1.last() == AlertTransition::Triggered,
        cpu_run(s, rs).0.cpu_active,
        forall|j: int| 0 <= j < rs.len() - 1 ==> (#[trigger] cpu_run(s, rs).1[j]) == AlertTransition::Quiet,
{
    lemma_highs_count_up(s, rs.drop_last());
    lemma_run_len(s, rs);
    let ts = cpu_run(s, rs).1;
    assert(ts.drop_last() =~= cpu_run(s, rs.drop_last()).1);
    assert forall|j: int| 0 <= j < rs.len() - 1 implies (#[trigger] ts[j]) == AlertTransition::Quiet by {
        assert(ts[j] == ts.drop_last()[j]);
    }
}

proof fn lemma_highs_count_up(s: AlertState, rs: Seq<CpuReading>)
    requires
        state_wf(s),
        !s.cpu_active,
        s.high_count == 0,
        rs.len() < effective_sustained(s.sustained),
        forall|j: int| 0 <= j < rs.len() ==> (#[trigger] rs[j]).above_high,
    ensures
        !cpu_run(s, rs).0.cpu_active,
        cpu_run(s, rs).0.high_count == rs.len(),
        cpu_run(s, rs).0.sustained == s.sustained,
        cpu_run(s, rs).1.len() == rs.len(),
        forall|j: int| 0 <= j < rs.len() ==> (#[trigger] cpu_run(s, rs).1[j]) == AlertTransition::Quiet,
    decreases rs.len(),
{
    if rs.len() > 0 {
        let p = rs.drop_last();
        assert forall|j: int| 0 <= j < p.len() implies (#[trigger] p[j]).above_high by {
            assert(p[j] == rs[j]);
        }
        lemma_highs_count_up(s, p);
        assert(rs.last() == rs[rs.len() - 1]);
        let ts = cpu_run(s, rs).1;
        assert(ts.drop_last() =~= cpu_run(s, p).1);
        assert forall|j: int| 0 <= j < rs.len() implies (#[trigger] ts[j]) == AlertTransition::Quiet by {
            if j < rs.len() - 1 {
                assert(ts[j] == ts.drop_last()[j]);
            }
        }
    }
}

} // verus!
