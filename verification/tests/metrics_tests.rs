use mymonitor::metrics::counter::{counter_delta, space_totals, wrapping_totals};
use mymonitor::metrics::cpu_temp::{select_zone_paths, CpuTempCollector, ThermalZoneEntry};
use mymonitor::metrics::disk::DiskCollector;
use mymonitor::metrics::network::NetworkCollector;

fn zone(name: Option<&str>, exists: bool, kind: &str) -> ThermalZoneEntry {
    let n = name.unwrap_or("?");
    ThermalZoneEntry {
        zone_name: name.map(|s| s.to_string()),
        temp_path: format!("/sys/class/thermal/{}/temp", n),
        temp_exists: exists,
        zone_type: kind.to_string(),
    }
}

#[test]
fn cpu_like_zones_are_preferred() {
    let entries = vec![
        zone(Some("thermal_zone0"), true, "acpitz\n"),
        zone(Some("thermal_zone1"), true, " X86_PKG_TEMP\n"),
        zone(Some("cooling_device0"), true, "cpu"),
        zone(Some("thermal_zone2"), false, "cpu-thermal"),
        zone(Some("thermal_zone3"), true, "SoC-Thermal"),
    ];
    assert_eq!(
        select_zone_paths(&entries),
        vec!["/sys/class/thermal/thermal_zone3/temp".to_string()]
    );
}

#[test]
fn package_zone_counts_as_cpu() {
    let entries = vec![
        zone(Some("thermal_zone0"), true, "acpitz"),
        zone(Some("thermal_zone1"), true, "Package id 0"),
    ];
    assert_eq!(select_zone_paths(&entries), vec!["/sys/class/thermal/thermal_zone1/temp".to_string()]);
}

#[test]
fn all_zones_are_read_when_none_is_cpu_like() {
    let entries = vec![
        zone(Some("thermal_zone0"), true, "acpitz"),
        zone(None, true, "cpu"),
        zone(Some("thermal_zone1"), true, ""),
    ];
    assert_eq!(
        select_zone_paths(&entries),
        vec![
            "/sys/class/thermal/thermal_zone0/temp".to_string(),
            "/sys/class/thermal/thermal_zone1/temp".to_string()
        ]
    );
}

#[test]
fn collector_rediscovers_only_when_empty() {
    let mut c = CpuTempCollector::new(&vec![]);
    assert!(c.needs_discovery());
    c.rediscover(&vec![zone(Some("thermal_zone0"), true, "cpu-thermal")]);
    assert!(!c.needs_discovery());
    assert_eq!(c.thermal_zone_paths(), &vec!["/sys/class/thermal/thermal_zone0/temp".to_string()]);
}

#[test]
fn totals_wrap_around() {
    assert_eq!(wrapping_totals(&vec![]), (0, 0));
    assert_eq!(wrapping_totals(&vec![(1, 10), (2, 20), (3, 30)]), (6, 60));
    assert_eq!(wrapping_totals(&vec![(u64::MAX, 5), (2, 5)]), (1, 10));
}

#[test]
fn space_totals_saturate() {
    assert_eq!(space_totals(&vec![(100, 40), (50, 60)]), (60, 150));
    assert_eq!(space_totals(&vec![(u64::MAX, 0), (10, 0)]), (u64::MAX, u64::MAX));
    assert_eq!(space_totals(&vec![]), (0, 0));
}

#[test]
fn delta_is_zero_when_counter_goes_down() {
    assert_eq!(counter_delta(150, 100), 50);
    assert_eq!(counter_delta(100, 150), 0);
    assert_eq!(counter_delta(7, 7), 0);
}

#[test]
fn collectors_run_on_this_machine() {
    let mut net = NetworkCollector::new();
    let _ = net.collect_rx();
    let _ = net.collect_tx();
    let mut disk = DiskCollector::new();
    let _ = disk.collect_read();
    let _ = disk.collect_write();
    let (used, total) = disk.collect_space();
    assert!(used <= total);
}
