use vigilance::config::Config;
use vigilance::log::{parse_log_level, to_ascii_lowercase};
use vigilance::model::{BatteryEvent, BatteryState};
use vigilance::notify::{LinuxNotify, Notification, Urgency};
use vigilance::utils::{format_bytes, select_top_consumers, MemoryConsumer};
use vigilance::watch::WatchService;
use std::sync::Arc;
use std::time::Duration;

#[test]
fn lower_charge_never_more_lenient() {
    for (low, crit) in [(20u8, 5u8), (50, 50), (10, 30), (0, 0), (255, 100)] {
        let mut c = Config::default();
        c.battery.low_threshold = low;
        c.battery.critical_threshold = crit;
        let c = Arc::new(c);
        for higher in 0..=255u8 {
            let h = WatchService::handle_battery(BatteryEvent::PercentageUpdate(higher), c.clone());
            for lower in 0..=higher {
                let l = WatchService::handle_battery(BatteryEvent::PercentageUpdate(lower), c.clone());
                if h.is_some() {
                    assert!(l.is_some());
                }
                if h.as_ref().and_then(|n| n.urgency) == Some(Urgency::Critical) {
                    assert_eq!(l.unwrap().urgency, Some(Urgency::Critical));
                }
            }
        }
    }
}

#[test]
fn every_state_change_alerts() {
    let c = Arc::new(Config::default());
    for v in 0..=6u8 {
        let s = BatteryState::from_upower_variant(v).unwrap();
        let n = WatchService::handle_battery(BatteryEvent::StateUpdate(s), c.clone()).unwrap();
        assert_eq!(n.urgency == Some(Urgency::Critical), s == BatteryState::Empty);
    }
}

#[test]
fn whole_units_have_zero_decimal() {
    for k in 1..1024u64 {
        assert_eq!(format_bytes(k * 1024), format!("{}.0 KB", k));
        assert_eq!(format_bytes(k * 1048576), format!("{}.0 MB", k));
        assert_eq!(format_bytes(k * 1073741824), format!("{}.0 GB", k));
    }
}

#[test]
fn ranking_laws() {
    let mut x: u64 = 7;
    for limit in [0usize, 1, 3, 10, 100] {
        let mut procs = Vec::new();
        for i in 0..40 {
            x = x.wrapping_mul(6364136223846793005).wrapping_add(1442695040888963407);
            procs.push((MemoryConsumer { name: format!("p{}", i), usage: (x >> 33) % 9 }, (x >> 20) % 4 == 0));
        }
        let whole: Vec<String> = procs.iter().filter(|(_, t)| !t).map(|(c, _)| c.name.clone()).collect();
        let top = select_top_consumers(procs.clone(), limit);
        assert_eq!(top.len(), limit.min(whole.len()));
        for w in top.windows(2) {
            assert!(w[1].usage <= w[0].usage);
        }
        for c in &top {
            assert!(whole.contains(&c.name));
        }
        let least = top.last().map(|c| c.usage);
        for (c, t) in &procs {
            if !t && !top.iter().any(|k| k.name == c.name) {
                if let Some(m) = least {
                    assert!(c.usage <= m);
                }
            }
        }
    }
}

#[test]
fn log_level_ignores_case() {
    for s in ["ERROR", "Warn", "iNfO", "debug", "DEBUG!", "x"] {
        let lower = to_ascii_lowercase(s);
        assert_eq!(parse_log_level(Some(lower)), parse_log_level(Some(s.to_string())));
    }
}

#[test]
fn summary_follows_options_and_precedes_body() {
    let n = Notification {
        summary: "S".to_string(),
        body: Some("B".to_string()),
        urgency: Some(Urgency::Low),
        expire_time: Some(Duration::from_secs(1)),
        app_name: None,
        icon: Some("i".to_string()),
    };
    let args = LinuxNotify::get_args(n);
    assert_eq!(args.len(), 6 + 1 + 1);
    assert_eq!(args[6], "S");
    assert_eq!(args.last().unwrap(), "B");
}
