use vigilance::config::Config;
use vigilance::model::{BatteryEvent, BatteryState, MemoryData};
use vigilance::notify::{Notifiable, Notification, NotifyError, Urgency};
use vigilance::utils::MemoryConsumer;
use vigilance::watch::{DiskEvent, MemoryLevel, WatchService, WatchSource};
use std::sync::atomic::{AtomicBool, Ordering};
use std::sync::Arc;

fn conf() -> Arc<Config> {
    Arc::new(Config::default())
}

fn check_alert(n: &Notification, summary: &str, body: &str, urgency: Urgency) {
    assert_eq!(n.summary, summary);
    assert_eq!(n.body.as_deref(), Some(body));
    assert_eq!(n.urgency, Some(urgency));
    assert_eq!(n.app_name.as_deref(), Some("vigilance"));
    assert!(n.expire_time.is_none() && n.icon.is_none());
}

#[test]
fn battery_above_low_threshold_is_quiet() {
    assert!(WatchService::handle_battery(BatteryEvent::PercentageUpdate(21), conf()).is_none());
    assert!(WatchService::handle_battery(BatteryEvent::PercentageUpdate(100), conf()).is_none());
}

#[test]
fn battery_low_and_critical() {
    let n = WatchService::handle_battery(BatteryEvent::PercentageUpdate(20), conf()).unwrap();
    check_alert(&n, "Battery Low", "20% remaining — Connect charger soon", Urgency::Low);
    let n = WatchService::handle_battery(BatteryEvent::PercentageUpdate(6), conf()).unwrap();
    check_alert(&n, "Battery Low", "6% remaining — Connect charger soon", Urgency::Low);
    let n = WatchService::handle_battery(BatteryEvent::PercentageUpdate(5), conf()).unwrap();
    check_alert(&n, "Battery Critical", "5% remaining — Connect charger immediately", Urgency::Critical);
    let n = WatchService::handle_battery(BatteryEvent::PercentageUpdate(0), conf()).unwrap();
    check_alert(&n, "Battery Critical", "0% remaining — Connect charger immediately", Urgency::Critical);
}

#[test]
fn battery_state_changes() {
    let n = WatchService::handle_battery(BatteryEvent::StateUpdate(BatteryState::Charging), conf()).unwrap();
    check_alert(&n, "Battery Charging", "Power connected. Battery is charging", Urgency::Normal);
    let n = WatchService::handle_battery(BatteryEvent::StateUpdate(BatteryState::Discharging), conf()).unwrap();
    check_alert(&n, "Battery Unplugged", "Power disconnected. Running on battery power", Urgency::Normal);
    let n = WatchService::handle_battery(BatteryEvent::StateUpdate(BatteryState::Empty), conf()).unwrap();
    check_alert(&n, "Battery Empty", "Battery is completely drained", Urgency::Critical);
    assert_eq!(WatchService::battery_to_body(BatteryState::Full), "Battery is fully charged");
    assert_eq!(WatchService::battery_to_body(BatteryState::PendingCharge), "Pending Charge");
}

fn mem(used: u64, total: u64) -> (MemoryData, u64) {
    let d = MemoryData { total_memory: total, used_memory: used, total_swap: 0, used_swap: 0 };
    let perc = (used as f64 / total as f64) * 100.0;
    (d, perc.to_bits())
}

#[test]
fn memory_levels() {
    let c = conf();
    let (_, b) = mem(50, 100);
    assert_eq!(WatchService::memory_level(&c.memory, b), MemoryLevel::Normal);
    let (_, b) = mem(90, 100);
    assert_eq!(WatchService::memory_level(&c.memory, b), MemoryLevel::Warning);
    let (_, b) = mem(95, 100);
    assert_eq!(WatchService::memory_level(&c.memory, b), MemoryLevel::Critical);
    // 0/0 is NaN: not below the warning threshold, not critical.
    let (_, b) = mem(0, 0);
    assert_eq!(WatchService::memory_level(&c.memory, b), MemoryLevel::Warning);
}

#[test]
fn memory_notifications() {
    let gib = 1073741824u64;
    let (d, b) = mem(8 * gib, 16 * gib);
    assert!(WatchService::handle_memory(d, conf(), b, Vec::new()).is_none());
    let (d, b) = mem(15 * gib, 16 * gib);
    let n = WatchService::handle_memory(d, conf(), b, vec![MemoryConsumer { name: "ignored".to_string(), usage: 1 }]).unwrap();
    check_alert(&n, "Memory Warning", "15.0 GB of 16.0 GB used (94%)", Urgency::Normal);
    let (d, b) = mem(31 * gib / 2, 16 * gib);
    let top = vec![
        MemoryConsumer { name: "firefox".to_string(), usage: 3 * gib },
        MemoryConsumer { name: "code".to_string(), usage: 1536 * 1048576 / 1024 },
    ];
    let n = WatchService::handle_memory(d, conf(), b, top).unwrap();
    check_alert(
        &n,
        "Memory Critical",
        "15.5 GB of 16.0 GB used (97%)\nConsider closing unused applications\nTop memory consumers:\n  firefox: 3.0 GB\n  code: 1.5 MB",
        Urgency::Critical,
    );
}

fn disk(mount: &str, total: u64, available: u64) -> (DiskEvent, u64) {
    let e = DiskEvent { name: "sda1".to_string(), mount_point: mount.to_string(), total_space: total, available_space: available };
    let perc = ((total - available) as f64 / total as f64) * 100.0;
    (e, perc.to_bits())
}

#[test]
fn disk_notifications() {
    let (e, b) = disk("/home", 100, 1);
    assert!(WatchService::handle_disk(e, conf(), b).is_none());
    let (e, b) = disk("/", 100, 6);
    assert!(WatchService::handle_disk(e, conf(), b).is_none());
    let (e, b) = disk("/", 1024 * 1024, 1024 * 40);
    let n = WatchService::handle_disk(e, conf(), b).unwrap();
    check_alert(&n, "Disk Almost Full", "sda1 (/):\n\n40.0 KB free of 1.0 MB\n(96% used)", Urgency::Critical);
}

struct Quiet;

impl Notifiable for Quiet {
    fn notify(&self, _notif: Notification) -> Result<(), NotifyError> {
        Ok(())
    }
}

#[test]
fn service_shares_flag_with_sources() {
    let c = conf();
    let s = WatchService::new(c.clone(), Box::new(Quiet));
    assert!(Arc::ptr_eq(s.config(), &c));
    assert!(Arc::ptr_eq(s.running(), s.source().running()));
    assert!(Arc::ptr_eq(s.source().battery().running(), s.running()));
    assert!(!s.running().load(Ordering::SeqCst));
    s.running().store(true, Ordering::SeqCst);
    s.stop();
    assert!(!s.running().load(Ordering::SeqCst));
    assert!(s.notifier().notify(Notification::default()).is_ok());
    let flag = Arc::new(AtomicBool::new(true));
    let src = WatchSource::new(c.clone(), flag.clone());
    assert!(Arc::ptr_eq(src.running(), &flag));
    assert!(Arc::ptr_eq(src.config(), &c));
    let _ = (src.disk(), src.memory());
}
