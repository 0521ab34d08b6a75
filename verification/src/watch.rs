//! The watch service: what it owns, and how each reading becomes (or does
//! not become) a notification.

use crate::binary64::{bits_at_least, bits_less_than, push_whole_number};
use crate::config::{BatteryConfig, Config, MemoryConfig};
use crate::model::{BatteryEvent, BatteryModel, BatteryState, DiskModel, MemoryData, MemoryModel};
use crate::notify::{Notifiable, Notification, Urgency};
use crate::text::{decimal, owned, push_decimal, push_str};
use crate::utils::{byte_size_text, format_bytes, MemoryConsumer};
use crate::APP_NAME;
use std::sync::Arc;
use std::sync::atomic::AtomicBool;
use vstd::prelude::*;

verus! {

/// Owns the settings, the sources of readings, the notifier and the flag
/// that keeps everything running.
pub struct WatchService {
    config: Arc<Config>,
    source: WatchSource,
    notifier: Box<dyn Notifiable>,
    running: Arc<AtomicBool>,
}

/// The sources of readings and the flag they share with the service.
pub struct WatchSource {
    config: Arc<Config>,
    running: Arc<AtomicBool>,
    battery: Arc<BatteryModel>,
    disk: Arc<DiskModel>,
    memory: Arc<MemoryModel>,
}

/// A reading from one of the sources.
#[derive(Debug, Clone)]
pub enum WatchEvents {
    Battery(BatteryEvent),
    Disk(DiskEvent),
    Memory(MemoryData),
}

/// One reading of a mounted disk; sizes in bytes.
#[derive(Debug, Clone)]
pub struct DiskEvent {
    pub name: String,
    /// The mount point, as text.
    pub mount_point: String,
    pub total_space: u64,
    pub available_space: u64,
}

/// How far memory use has gone.
#[derive(Debug, Clone, Copy, PartialEq, Eq, Structural)]
pub enum MemoryLevel {
    Normal,
    Warning,
    Critical,
}

/// `n` carries `summary`, `body` and `urgency`, names this application,
/// and sets nothing else.
pub open spec fn alert(n: Notification, summary: Seq<char>, body: Seq<char>, urgency: Urgency) -> bool {
    &&& n.summary@ == summary
    &&& n.body matches Some(b) && b@ == body
    &&& n.urgency == Some(urgency)
    &&& n.expire_time is None
    &&& n.app_name matches Some(a) && a@ == APP_NAME@
    &&& n.icon is None
}

/// The body shown for a change of charge state.
pub open spec fn state_body(state: BatteryState) -> Seq<char> {
    match state {
        BatteryState::Unknown => "Unknown"@,
        BatteryState::Charging => "Power connected. Battery is charging"@,
        BatteryState::Discharging => "Power disconnected. Running on battery power"@,
        BatteryState::Empty => "Battery is completely drained"@,
        BatteryState::Full => "Battery is fully charged"@,
        BatteryState::PendingCharge => "Pending Charge"@,
        BatteryState::PendingDischarge => "Pending Discharge"@,
    }
}

/// The notification owed for a battery event: `None` when the charge is
/// above the low threshold; a charge at or below the critical threshold is
/// critical, one above it only low; every change of state is reported,
/// critical only when the battery is empty.
pub open spec fn battery_alert(e: BatteryEvent, conf: BatteryConfig) -> Option<(Seq<char>, Seq<char>, Urgency)> {
    match e {
        BatteryEvent::PercentageUpdate(perc) => {
            if perc > conf.low_threshold {
                None
            } else if perc <= conf.critical_threshold {
                Some((
                    "Battery Critical"@,
                    decimal(perc as nat) + "% remaining — Connect charger immediately"@,
                    Urgency::Critical,
                ))
            } else {
                Some((
                    "Battery Low"@,
                    decimal(perc as nat) + "% remaining — Connect charger soon"@,
                    Urgency::Low,
                ))
            }
        },
        BatteryEvent::StateUpdate(state) => Some((
            "Battery "@ + crate::model::state_label(state),
            state_body(state),
            if state == BatteryState::Empty { Urgency::Critical } else { Urgency::Normal },
        )),
    }
}

/// A lower charge is never treated more leniently: when a charge owes an
/// alert, so does every lower one, and a critical charge makes every lower
/// one critical too.
pub proof fn lemma_battery_alert_monotone(conf: BatteryConfig, lower: u8, higher: u8)
    requires
        lower <= higher,
    ensures
        battery_alert(BatteryEvent::PercentageUpdate(higher), conf) is Some
            ==> battery_alert(BatteryEvent::PercentageUpdate(lower), conf) is Some,
        battery_alert(BatteryEvent::PercentageUpdate(higher), conf) matches Some(a) && a.2 == Urgency::Critical
            ==> (battery_alert(BatteryEvent::PercentageUpdate(lower), conf) matches Some(b) && b.2 == Urgency::Critical),
{
}

/// Every change of charge state owes an alert, and it is critical exactly
/// when the battery is empty.
pub proof fn lemma_state_changes_always_alert(conf: BatteryConfig, state: BatteryState)
    ensures
        battery_alert(BatteryEvent::StateUpdate(state), conf) matches Some(a)
            && (a.2 == Urgency::Critical <==> state == BatteryState::Empty),
{
}

/// The alert/no-alert boundary of a charge reading is the configured low
/// threshold, and the critical boundary the configured critical threshold:
/// for every configuration and every charge.
pub proof fn lemma_battery_thresholds(conf: BatteryConfig, perc: u8)
    ensures
        battery_alert(BatteryEvent::PercentageUpdate(perc), conf) is None <==> perc > conf.low_threshold,
        battery_alert(BatteryEvent::PercentageUpdate(perc), conf) matches Some(a)
            ==> (a.2 == Urgency::Critical <==> perc <= conf.critical_threshold)
            && (a.2 == Urgency::Critical || a.2 == Urgency::Low)
            && a.0 == (if perc <= conf.critical_threshold { "Battery Critical"@ } else { "Battery Low"@ })
            && a.1.take(decimal(perc as nat).len() as int) == decimal(perc as nat),
{
    if perc <= conf.low_threshold {
        let a = battery_alert(BatteryEvent::PercentageUpdate(perc), conf).unwrap();
        assert(a.1.take(decimal(perc as nat).len() as int) =~= decimal(perc as nat));
    }
}

/// A change of charge state is critical when the battery is empty and of
/// normal urgency for every other state; its summary names the state.
pub proof fn lemma_state_change_urgency(conf: BatteryConfig, state: BatteryState)
    ensures
        battery_alert(BatteryEvent::StateUpdate(state), conf) matches Some(a)
            && a.2 == (if state == BatteryState::Empty { Urgency::Critical } else { Urgency::Normal })
            && a.0 == "Battery "@ + crate::model::state_label(state)
            && a.1 == state_body(state),
{
}

/// Distinct charge states are shown with distinct bodies and distinct
/// labels; the states that need no explanation (unknown, pending charge,
/// pending discharge) are shown with their own label as body.
pub proof fn lemma_state_bodies(s1: BatteryState, s2: BatteryState)
    ensures
        s1 != s2 ==> state_body(s1) != state_body(s2),
        s1 != s2 ==> crate::model::state_label(s1) != crate::model::state_label(s2),
        s1 == BatteryState::Unknown || s1 == BatteryState::PendingCharge || s1 == BatteryState::PendingDischarge
            ==> state_body(s1) == crate::model::state_label(s1),
{
    reveal_strlit("Unknown");
    reveal_strlit("Power connected. Battery is charging");
    reveal_strlit("Power disconnected. Running on battery power");
    reveal_strlit("Battery is completely drained");
    reveal_strlit("Battery is fully charged");
    reveal_strlit("Pending Charge");
    reveal_strlit("Pending Discharge");
    reveal_strlit("Charging");
    reveal_strlit("Unplugged");
    reveal_strlit("Empty");
    reveal_strlit("Full");
    assert("Unknown"@.len() == 7);
    assert("Power connected. Battery is charging"@.len() == 36);
    assert("Power disconnected. Running on battery power"@.len() == 44);
    assert("Battery is completely drained"@.len() == 29);
    assert("Battery is fully charged"@.len() == 24);
    assert("Pending Charge"@.len() == 14);
    assert("Pending Discharge"@.len() == 17);
    assert("Charging"@.len() == 8);
    assert("Unplugged"@.len() == 9);
    assert("Empty"@.len() == 5);
    assert("Full"@.len() == 4);
    if s1 != s2 {
        assert(state_body(s1).len() != state_body(s2).len());
        assert(crate::model::state_label(s1).len() != crate::model::state_label(s2).len());
    }
}

/// The first line of a memory alert: physical memory used, of the total.
pub open spec fn memory_usage_line(e: MemoryData) -> Seq<char> {
    byte_size_text(e.used_memory) + " of "@ + byte_size_text(e.total_memory)
}

/// A memory alert's body opens with the physical memory in use and the
/// physical total, and depends on no swap figure: readings that agree on
/// physical memory get the same body.
pub proof fn lemma_memory_body_physical(e1: MemoryData, e2: MemoryData, percent_bits: u64, critical: bool, top: Seq<MemoryConsumer>)
    ensures
        memory_body(e1, percent_bits, critical, top).take(memory_usage_line(e1).len() as int) == memory_usage_line(e1),
        e1.used_memory == e2.used_memory && e1.total_memory == e2.total_memory
            ==> memory_body(e1, percent_bits, critical, top) == memory_body(e2, percent_bits, critical, top),
{
    let b = memory_body(e1, percent_bits, critical, top);
    let l = memory_usage_line(e1);
    assert(b.take(l.len() as int) =~= l);
}

/// A warning lists no processes: its body is the same whatever process
/// list is handed in. A critical alert's body goes on past the warning's.
pub proof fn lemma_memory_body_processes(e: MemoryData, percent_bits: u64, top1: Seq<MemoryConsumer>, top2: Seq<MemoryConsumer>)
    ensures
        memory_body(e, percent_bits, false, top1) == memory_body(e, percent_bits, false, top2),
        memory_body(e, percent_bits, true, top1).take(memory_body(e, percent_bits, false, top1).len() as int)
            == memory_body(e, percent_bits, false, top1),
        memory_body(e, percent_bits, true, top1).len() > memory_body(e, percent_bits, false, top1).len(),
{
    let w = memory_body(e, percent_bits, false, top1);
    let c = memory_body(e, percent_bits, true, top1);
    assert(w =~= memory_body(e, percent_bits, false, top2));
    assert(c.take(w.len() as int) =~= w);
    reveal_strlit("\nConsider closing unused applications\nTop memory consumers:");
}

/// A disk alert's body opens with the disk's name and mount point, then
/// the free space, then the total size.
pub proof fn lemma_disk_body_layout(e: DiskEvent, percent_bits: u64)
    ensures
        ({
            let head = e.name@ + " ("@ + e.mount_point@ + "):\n\n"@ + byte_size_text(e.available_space) + " free of "@
                + byte_size_text(e.total_space);
            disk_body(e, percent_bits).take(head.len() as int) == head
        }),
{
    let head = e.name@ + " ("@ + e.mount_point@ + "):\n\n"@ + byte_size_text(e.available_space) + " free of "@
        + byte_size_text(e.total_space);
    assert(disk_body(e, percent_bits).take(head.len() as int) =~= head);
}

/// The level of a memory reading follows the configured thresholds for
/// every configuration: normal exactly below the warning threshold,
/// critical exactly when not below it and at least the critical threshold.
pub proof fn lemma_memory_level_thresholds(conf: MemoryConfig, percent_bits: u64)
    ensures
        memory_level_of(conf, percent_bits) == MemoryLevel::Normal
            <==> crate::binary64::less_than(percent_bits, conf.warning_threshold as nat),
        memory_level_of(conf, percent_bits) == MemoryLevel::Critical
            <==> !crate::binary64::less_than(percent_bits, conf.warning_threshold as nat)
            && crate::binary64::at_least(percent_bits, conf.critical_threshold as nat),
{
}

/// How far memory use has gone, given the bit pattern of the percentage of
/// memory in use: `Normal` below the warning threshold, `Critical` at or
/// above the critical threshold, `Warning` otherwise (NaN, which compares
/// with nothing, is a warning).
pub open spec fn memory_level_of(conf: MemoryConfig, percent_bits: u64) -> MemoryLevel {
    if crate::binary64::less_than(percent_bits, conf.warning_threshold as nat) {
        MemoryLevel::Normal
    } else if crate::binary64::at_least(percent_bits, conf.critical_threshold as nat) {
        MemoryLevel::Critical
    } else {
        MemoryLevel::Warning
    }
}

/// One line per process: its name and its memory use.
pub open spec fn consumer_lines(top: Seq<MemoryConsumer>) -> Seq<char>
    decreases top.len(),
{
    if top.len() == 0 {
        Seq::empty()
    } else {
        consumer_lines(top.drop_last()) + "\n  "@ + top.last().name@ + ": "@ + byte_size_text(top.last().usage)
    }
}

/// The body of a memory alert.
pub open spec fn memory_body(e: MemoryData, percent_bits: u64, critical: bool, top: Seq<MemoryConsumer>) -> Seq<char> {
    byte_size_text(e.used_memory) + " of "@ + byte_size_text(e.total_memory) + " used ("@
        + crate::binary64::whole_number_text(percent_bits) + "%)"@
        + if critical {
        "\nConsider closing unused applications\nTop memory consumers:"@ + consumer_lines(top)
    } else {
        Seq::empty()
    }
}

/// The body of a disk alert.
pub open spec fn disk_body(e: DiskEvent, percent_bits: u64) -> Seq<char> {
    e.name@ + " ("@ + e.mount_point@ + "):\n\n"@ + byte_size_text(e.available_space) + " free of "@
        + byte_size_text(e.total_space) + "\n("@ + crate::binary64::whole_number_text(percent_bits) + "% used)"@
}

/// A notification that names this application and carries the given
/// summary, body and urgency.
fn make_alert(summary: String, body: String, urgency: Urgency) -> (n: Notification)
    ensures
        alert(n, summary@, body@, urgency),
{
    Notification {
        summary,
        body: Some(body),
        urgency: Some(urgency),
        expire_time: None,
        app_name: Some(owned(APP_NAME)),
        icon: None,
    }
}

impl WatchSource {
    pub closed spec fn flag(&self) -> Arc<AtomicBool> {
        self.running
    }

    pub closed spec fn settings(&self) -> Arc<Config> {
        self.config
    }

    /// Sources for `config` that share `running`; the battery model
    /// watches the same flag.
    pub fn new(config: Arc<Config>, running: Arc<AtomicBool>) -> (s: Self)
        ensures
            s.settings() == config,
            s.flag() == running,
            s.battery_model().flag() == running,
    {
        Self {
            config,
            battery: Arc::new(BatteryModel::new(Some(running.clone()))),
            running,
            disk: Arc::new(DiskModel::new()),
            memory: Arc::new(MemoryModel::new()),
        }
    }

    pub closed spec fn battery_model(&self) -> BatteryModel {
        *self.battery
    }

    pub fn config(&self) -> (c: &Arc<Config>)
        ensures
            *c == self.settings(),
    {
        &self.config
    }

    pub fn running(&self) -> (r: &Arc<AtomicBool>)
        ensures
            *r == self.flag(),
    {
        &self.running
    }

    pub fn battery(&self) -> (b: &Arc<BatteryModel>)
        ensures
            **b == self.battery_model(),
    {
        &self.battery
    }

    pub fn disk(&self) -> (d: &Arc<DiskModel>) {
        &self.disk
    }

    pub fn memory(&self) -> (m: &Arc<MemoryModel>) {
        &self.memory
    }
}

impl WatchService {
    pub closed spec fn flag(&self) -> Arc<AtomicBool> {
        self.running
    }

    pub closed spec fn settings(&self) -> Arc<Config> {
        self.config
    }

    pub closed spec fn sources(&self) -> WatchSource {
        self.source
    }

    /// A service for `config` that reports through `notifier`; the service
    /// and its sources share one running flag, created cleared.
    pub fn new(config: Arc<Config>, notifier: Box<dyn Notifiable>) -> (s: Self)
        ensures
            s.settings() == config,
            s.sources().settings() == config,
            s.sources().flag() == s.flag(),
            s.sources().battery_model().flag() == s.flag(),
    {
        let running = Arc::new(AtomicBool::new(false));
        Self {
            source: WatchSource::new(config.clone(), running.clone()),
            config,
            notifier,
            running,
        }
    }

    pub fn config(&self) -> (c: &Arc<Config>)
        ensures
            *c == self.settings(),
    {
        &self.config
    }

    pub fn source(&self) -> (s: &WatchSource)
        ensures
            *s == self.sources(),
    {
        &self.source
    }

    pub closed spec fn delivery(&self) -> &Box<dyn Notifiable> {
        &self.notifier
    }

    pub fn notifier(&self) -> (n: &Box<dyn Notifiable>)
        ensures
            n == self.delivery(),
    {
        &self.notifier
    }

    pub fn running(&self) -> (r: &Arc<AtomicBool>)
        ensures
            *r == self.flag(),
    {
        &self.running
    }

    /// Clears the running flag: the sources stop polling and the event
    /// loop ends at the next event.
    pub fn stop(&self)
        opens_invariants none
        no_unwind
    {
        crate::model::clear_flag(&self.running);
    }

    /// The body shown for a change of charge state.
    pub fn battery_to_body(state: BatteryState) -> (s: &'static str)
        ensures
            s@ == state_body(state),
            state == BatteryState::Unknown || state == BatteryState::PendingCharge
                || state == BatteryState::PendingDischarge ==> s@ == crate::model::state_label(state),
    {
        proof {
            lemma_state_bodies(state, state);
        }
        match state {
            BatteryState::Unknown => "Unknown",
            BatteryState::Charging => "Power connected. Battery is charging",
            BatteryState::Discharging => "Power disconnected. Running on battery power",
            BatteryState::Empty => "Battery is completely drained",
            BatteryState::Full => "Battery is fully charged",
            BatteryState::PendingCharge => "Pending Charge",
            BatteryState::PendingDischarge => "Pending Discharge",
        }
    }

    /// The notification for a battery event, if one is owed.
    pub fn handle_battery(e: BatteryEvent, conf: Arc<Config>) -> (r: Option<Notification>)
        ensures
            match battery_alert(e, conf.battery) {
                None => r is None,
                Some((summary, body, urgency)) => r matches Some(n) && alert(n, summary, body, urgency),
            },
            e matches BatteryEvent::PercentageUpdate(p) ==> (r is None <==> p > conf.battery.low_threshold),
            e matches BatteryEvent::PercentageUpdate(p) ==> (p <= conf.battery.low_threshold ==> (r matches Some(n)
                && n.urgency == Some(if p <= conf.battery.critical_threshold { Urgency::Critical } else { Urgency::Low }))),
            e matches BatteryEvent::StateUpdate(st) ==> (r matches Some(n)
                && n.urgency == Some(if st == BatteryState::Empty { Urgency::Critical } else { Urgency::Normal })
                && n.summary@ == "Battery "@ + crate::model::state_label(st)),
    {
        let conf = &conf.battery;
        match e {
            BatteryEvent::PercentageUpdate(perc) => {
                if perc > conf.low_threshold {
                    return None;
                }
                let critical = perc <= conf.critical_threshold;
                let summary = if critical { owned("Battery Critical") } else { owned("Battery Low") };
                let mut body = String::new();
                push_decimal(&mut body, perc as u128);
                if critical {
                    push_str(&mut body, "% remaining — Connect charger immediately");
                } else {
                    push_str(&mut body, "% remaining — Connect charger soon");
                }
                let urgency = if critical { Urgency::Critical } else { Urgency::Low };
                assert(body@ =~= battery_alert(e, *conf).unwrap().1);
                Some(make_alert(summary, body, urgency))
            },
            BatteryEvent::StateUpdate(state) => {
                let urgency = match state {
                    BatteryState::Empty => Urgency::Critical,
                    _ => Urgency::Normal,
                };
                let mut summary = owned("Battery ");
                push_str(&mut summary, state.label());
                let body = owned(Self::battery_to_body(state));
                Some(make_alert(summary, body, urgency))
            },
        }
    }

    /// How far memory use has gone; `percent_bits` is the bit pattern of
    /// `used_memory / total_memory * 100` computed in binary64.
    pub fn memory_level(conf: &MemoryConfig, percent_bits: u64) -> (l: MemoryLevel)
        ensures
            l == memory_level_of(*conf, percent_bits),
            l == MemoryLevel::Normal <==> crate::binary64::less_than(percent_bits, conf.warning_threshold as nat),
            l == MemoryLevel::Critical <==> !crate::binary64::less_than(percent_bits, conf.warning_threshold as nat)
                && crate::binary64::at_least(percent_bits, conf.critical_threshold as nat),
    {
        if bits_less_than(percent_bits, conf.warning_threshold) {
            MemoryLevel::Normal
        } else if bits_at_least(percent_bits, conf.critical_threshold) {
            MemoryLevel::Critical
        } else {
            MemoryLevel::Warning
        }
    }

    /// The notification for a memory reading, if one is owed.
    /// `percent_bits` is the bit pattern of `used_memory / total_memory *
    /// 100` computed in binary64; `top` lists the processes that use the
    /// most memory, shown in a critical alert.
    pub fn handle_memory(e: MemoryData, conf: Arc<Config>, percent_bits: u64, top: Vec<MemoryConsumer>) -> (r: Option<Notification>)
        ensures
            match memory_level_of(conf.memory, percent_bits) {
                MemoryLevel::Normal => r is None,
                MemoryLevel::Warning => r matches Some(n)
                    && alert(n, "Memory Warning"@, memory_body(e, percent_bits, false, top@), Urgency::Normal),
                MemoryLevel::Critical => r matches Some(n)
                    && alert(n, "Memory Critical"@, memory_body(e, percent_bits, true, top@), Urgency::Critical),
            },
            r matches Some(n) ==> (n.body matches Some(b) && b@.take(memory_usage_line(e).len() as int) == memory_usage_line(e)),
    {
        proof {
            lemma_memory_body_physical(e, e, percent_bits, true, top@);
            lemma_memory_body_physical(e, e, percent_bits, false, top@);
        }
        let level = Self::memory_level(&conf.memory, percent_bits);
        if level == MemoryLevel::Normal {
            return None;
        }
        let critical = level == MemoryLevel::Critical;
        let summary = if critical { owned("Memory Critical") } else { owned("Memory Warning") };
        let urgency = if critical { Urgency::Critical } else { Urgency::Normal };
        let mut body = format_bytes(e.used_memory);
        push_str(&mut body, " of ");
        let total = format_bytes(e.total_memory);
        push_str(&mut body, total.as_str());
        push_str(&mut body, " used (");
        push_whole_number(&mut body, percent_bits);
        push_str(&mut body, "%)");
        let ghost head = body@;
        if critical {
            push_str(&mut body, "\nConsider closing unused applications\nTop memory consumers:");
            let ghost lead = body@;
            let n = top.len();
            let mut i: usize = 0;
            while i < n
                invariant
                    n == top@.len(),
                    i <= n,
                    body@ == lead + consumer_lines(top@.take(i as int)),
                decreases n - i,
            {
                let c = &top[i];
                push_str(&mut body, "\n  ");
                push_str(&mut body, c.name.as_str());
                push_str(&mut body, ": ");
                let usage = format_bytes(c.usage);
                push_str(&mut body, usage.as_str());
                proof {
                    assert(top@.take(i + 1).drop_last() =~= top@.take(i as int));
                }
                i += 1;
                assert(body@ =~= lead + consumer_lines(top@.take(i as int)));
            }
            assert(top@.take(n as int) =~= top@);
        }
        assert(body@ =~= memory_body(e, percent_bits, critical, top@));
        Some(make_alert(summary, body, urgency))
    }

    /// The notification for a disk reading, if one is owed: only for a
    /// watched mount point, and only when the used share (the bit pattern
    /// of `(total_space - available_space) / total_space * 100` computed in
    /// binary64) reaches the critical threshold.
    pub fn handle_disk(e: DiskEvent, conf: Arc<Config>, percent_bits: u64) -> (r: Option<Notification>)
        ensures
            !conf.disk.watch_mounts.deep_view().contains(e.mount_point@) ==> r is None,
            conf.disk.watch_mounts.deep_view().contains(e.mount_point@)
                && crate::binary64::less_than(percent_bits, conf.disk.critical_threshold as nat) ==> r is None,
            conf.disk.watch_mounts.deep_view().contains(e.mount_point@)
                && !crate::binary64::less_than(percent_bits, conf.disk.critical_threshold as nat)
                ==> (r matches Some(n) && alert(n, "Disk Almost Full"@, disk_body(e, percent_bits), Urgency::Critical)),
    {
        let conf = &conf.disk;
        if !conf.watches(&e.mount_point) {
            return None;
        }
        if bits_less_than(percent_bits, conf.critical_threshold) {
            return None;
        }
        let mut body = e.name.clone();
        push_str(&mut body, " (");
        push_str(&mut body, e.mount_point.as_str());
        push_str(&mut body, "):\n\n");
        let free = format_bytes(e.available_space);
        push_str(&mut body, free.as_str());
        push_str(&mut body, " free of ");
        let total = format_bytes(e.total_space);
        push_str(&mut body, total.as_str());
        push_str(&mut body, "\n(");
        push_whole_number(&mut body, percent_bits);
        push_str(&mut body, "% used)");
        assert(body@ =~= disk_body(e, percent_bits));
        Some(make_alert(owned("Disk Almost Full"), body, Urgency::Critical))
    }
}

impl Drop for WatchService {
    /// Dropping the service stops it.
    fn drop(&mut self)
        opens_invariants none
        no_unwind
    {
        self.stop();
    }
}

} // verus!
