use vigilance::config::{default_mounts, BatteryConfig, Config, DiskConfig, MemoryConfig};
use std::time::Duration;

#[test]
fn battery_defaults() {
    let c = BatteryConfig::default();
    assert!(c.enabled);
    assert_eq!(c.low_threshold, 20);
    assert_eq!(c.critical_threshold, 5);
    assert!(c.on_warning.is_empty() && c.on_critical.is_empty() && c.on_full.is_empty());
}

#[test]
fn memory_defaults() {
    let c = MemoryConfig::default();
    assert!(c.enabled);
    assert_eq!(c.poll_interval_secs, 10);
    assert_eq!(c.warning_threshold, 90);
    assert_eq!(c.critical_threshold, 95);
}

#[test]
fn disk_defaults_watch_root() {
    let c = DiskConfig::default();
    assert!(c.enabled);
    assert_eq!(c.watch_mounts, vec!["/".to_string()]);
    assert_eq!(c.critical_threshold, 95);
    assert_eq!(default_mounts(), vec!["/".to_string()]);
}

#[test]
fn config_default_combines_parts() {
    let c = Config::default();
    assert_eq!(c.battery.low_threshold, 20);
    assert_eq!(c.memory.warning_threshold, 90);
    assert_eq!(c.disk.poll_interval_secs, 10);
}

#[test]
fn poll_intervals_are_seconds() {
    let mut m = MemoryConfig::default();
    assert_eq!(m.poll_interval(), Duration::from_secs(10));
    m.poll_interval_secs = 3;
    assert_eq!(m.poll_interval().as_millis(), 3000);
    let mut d = DiskConfig::default();
    d.poll_interval_secs = 0;
    assert_eq!(d.poll_interval(), Duration::ZERO);
    d.poll_interval_secs = u64::MAX;
    assert_eq!(d.poll_interval().as_secs(), u64::MAX);
    assert_eq!(d.poll_interval(), Duration::from_secs(u64::MAX));
    assert_eq!(DiskConfig::default().poll_interval(), Duration::from_secs(10));
}

#[test]
fn watches_listed_mounts_only() {
    let mut d = DiskConfig::default();
    assert!(d.watches(&"/".to_string()));
    assert!(!d.watches(&"/home".to_string()));
    d.watch_mounts.push("/home".to_string());
    assert!(d.watches(&"/home".to_string()));
    d.watch_mounts.clear();
    assert!(!d.watches(&"/".to_string()));
}
