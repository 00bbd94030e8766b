use mymonitor::alerting::{AlertEvaluator, AlertTransition, CpuReading, MemoryReading};

const HIGH: CpuReading = CpuReading { above_high: true, within_recover: false };
const MIDDLE: CpuReading = CpuReading { above_high: false, within_recover: false };
const LOW: CpuReading = CpuReading { above_high: false, within_recover: true };

#[test]
fn cpu_alert_needs_sustained_samples() {
    let mut e = AlertEvaluator::new(3);
    assert_eq!(e.evaluate_cpu(HIGH), AlertTransition::Quiet);
    assert_eq!(e.evaluate_cpu(HIGH), AlertTransition::Quiet);
    assert_eq!(e.consecutive_high_samples(), 2);
    assert_eq!(e.evaluate_cpu(HIGH), AlertTransition::Triggered);
    assert!(e.cpu_alert_active());
    assert_eq!(e.consecutive_high_samples(), 3);
}

#[test]
fn cpu_low_sample_resets_the_count() {
    let mut e = AlertEvaluator::new(3);
    assert_eq!(e.evaluate_cpu(HIGH), AlertTransition::Quiet);
    assert_eq!(e.evaluate_cpu(HIGH), AlertTransition::Quiet);
    assert_eq!(e.evaluate_cpu(MIDDLE), AlertTransition::Quiet);
    assert_eq!(e.consecutive_high_samples(), 0);
    assert_eq!(e.evaluate_cpu(HIGH), AlertTransition::Quiet);
    assert_eq!(e.evaluate_cpu(HIGH), AlertTransition::Quiet);
    assert_eq!(e.evaluate_cpu(HIGH), AlertTransition::Triggered);
}

#[test]
fn cpu_alert_recovers_only_within_recovery_threshold() {
    let mut e = AlertEvaluator::new(1);
    assert_eq!(e.evaluate_cpu(HIGH), AlertTransition::Triggered);
    assert_eq!(e.evaluate_cpu(HIGH), AlertTransition::Quiet);
    assert_eq!(e.evaluate_cpu(MIDDLE), AlertTransition::Quiet);
    assert!(e.cpu_alert_active());
    assert_eq!(e.evaluate_cpu(LOW), AlertTransition::Recovered);
    assert!(!e.cpu_alert_active());
    assert_eq!(e.consecutive_high_samples(), 0);
    assert_eq!(e.evaluate_cpu(LOW), AlertTransition::Quiet);
}

#[test]
fn zero_sustained_samples_acts_as_one() {
    let mut e = AlertEvaluator::new(0);
    assert_eq!(e.evaluate_cpu(MIDDLE), AlertTransition::Quiet);
    assert_eq!(e.evaluate_cpu(HIGH), AlertTransition::Triggered);
    assert_eq!(e.consecutive_high_samples(), 1);
}

#[test]
fn largest_sustained_count_does_not_overflow() {
    let mut e = AlertEvaluator::new(u32::MAX);
    for _ in 0..1000 {
        assert_eq!(e.evaluate_cpu(HIGH), AlertTransition::Quiet);
    }
    assert_eq!(e.consecutive_high_samples(), 1000);
}

#[test]
fn memory_alert_has_hysteresis_free_threshold() {
    let mut e = AlertEvaluator::new(1);
    assert_eq!(e.evaluate_memory(MemoryReading::NotAbove), AlertTransition::Quiet);
    assert_eq!(e.evaluate_memory(MemoryReading::Above), AlertTransition::Triggered);
    assert_eq!(e.evaluate_memory(MemoryReading::Above), AlertTransition::Quiet);
    assert_eq!(e.evaluate_memory(MemoryReading::Unavailable), AlertTransition::Quiet);
    assert!(e.memory_alert_active());
    assert_eq!(e.evaluate_memory(MemoryReading::NotAbove), AlertTransition::Recovered);
    assert!(!e.memory_alert_active());
}

#[test]
fn unavailable_memory_changes_nothing() {
    let mut e = AlertEvaluator::new(1);
    assert_eq!(e.evaluate_memory(MemoryReading::Unavailable), AlertTransition::Quiet);
    assert!(!e.memory_alert_active());
}

#[test]
fn snapshot_evaluates_cpu_then_memory() {
    let mut e = AlertEvaluator::new(2);
    assert_eq!(e.evaluate_snapshot(HIGH, MemoryReading::Above), (AlertTransition::Quiet, AlertTransition::Triggered));
    assert_eq!(e.evaluate_snapshot(HIGH, MemoryReading::NotAbove), (AlertTransition::Triggered, AlertTransition::Recovered));
    assert_eq!(e.evaluate_snapshot(LOW, MemoryReading::NotAbove), (AlertTransition::Recovered, AlertTransition::Quiet));
}

#[test]
fn alerts_alternate_over_a_run() {
    let mut e = AlertEvaluator::new(1);
    let readings = [HIGH, HIGH, LOW, LOW, HIGH, MIDDLE, LOW, HIGH];
    let mut seen = Vec::new();
    for r in readings {
        let t = e.evaluate_cpu(r);
        if t != AlertTransition::Quiet {
            seen.push(t);
        }
    }
    assert_eq!(
        seen,
        vec![
            AlertTransition::Triggered,
            AlertTransition::Recovered,
            AlertTransition::Triggered,
            AlertTransition::Recovered,
            AlertTransition::Triggered
        ]
    );
}
