//! Settings of the watcher and their defaults.
//!
//! The settings file itself is read by the application; here stand the
//! settings as plain values and the defaults that a missing key takes.

use crate::duration::duration_from_secs;
use crate::text::owned;
use std::time::Duration;
use vstd::prelude::*;

verus! {

/// All settings of the watcher.
#[derive(Debug, Clone)]
pub struct Config {
    pub battery: BatteryConfig,
    pub memory: MemoryConfig,
    pub disk: DiskConfig,
}

/// Battery alert settings (percentages).
#[derive(Debug, Clone)]
pub struct BatteryConfig {
    pub enabled: bool,
    pub low_threshold: u8,
    pub critical_threshold: u8,
    pub on_warning: Vec<String>,
    pub on_critical: Vec<String>,
    pub on_charging: Vec<String>,
    pub on_discharging: Vec<String>,
    pub on_full: Vec<String>,
}

/// Memory alert settings (percentages of physical memory in use).
#[derive(Debug, Clone)]
pub struct MemoryConfig {
    pub enabled: bool,
    pub poll_interval_secs: u64,
    pub warning_threshold: u8,
    pub critical_threshold: u8,
    pub on_warning: Vec<String>,
    pub on_critical: Vec<String>,
}

/// Disk alert settings. `watch_mounts` is a set of mount points: the
/// defaults hold no mount point twice, and the application builds it from
/// a set.
#[derive(Debug, Clone)]
pub struct DiskConfig {
    pub enabled: bool,
    pub watch_mounts: Vec<String>,
    pub poll_interval_secs: u64,
    pub critical_threshold: u8,
    pub on_critical: Vec<String>,
}

/// The default battery settings.
pub open spec fn battery_defaults(c: BatteryConfig) -> bool {
    &&& c.enabled
    &&& c.low_threshold == 20
    &&& c.critical_threshold == 5
    &&& c.on_warning@.len() == 0
    &&& c.on_critical@.len() == 0
    &&& c.on_charging@.len() == 0
    &&& c.on_discharging@.len() == 0
    &&& c.on_full@.len() == 0
}

/// The default memory settings.
pub open spec fn memory_defaults(c: MemoryConfig) -> bool {
    &&& c.enabled
    &&& c.poll_interval_secs == 10
    &&& c.warning_threshold == 90
    &&& c.critical_threshold == 95
    &&& c.on_warning@.len() == 0
    &&& c.on_critical@.len() == 0
}

/// The default disk settings: only the root file system is watched.
pub open spec fn disk_defaults(c: DiskConfig) -> bool {
    &&& c.enabled
    &&& c.watch_mounts.deep_view() == seq!["/"@]
    &&& c.poll_interval_secs == 10
    &&& c.critical_threshold == 95
    &&& c.on_critical@.len() == 0
}

impl Default for BatteryConfig {
    fn default() -> (c: Self)
        ensures
            battery_defaults(c),
    {
        BatteryConfig {
            enabled: true,
            low_threshold: 20,
            critical_threshold: 5,
            on_warning: Vec::new(),
            on_critical: Vec::new(),
            on_charging: Vec::new(),
            on_discharging: Vec::new(),
            on_full: Vec::new(),
        }
    }
}

impl Default for MemoryConfig {
    fn default() -> (c: Self)
        ensures
            memory_defaults(c),
    {
        MemoryConfig {
            enabled: true,
            poll_interval_secs: 10,
            warning_threshold: 90,
            critical_threshold: 95,
            on_warning: Vec::new(),
            on_critical: Vec::new(),
        }
    }
}

impl MemoryConfig {
    /// The polling period, `poll_interval_secs` seconds.
    pub fn poll_interval(&self) -> (d: Duration)
        ensures
            d == crate::duration::duration_of_secs(self.poll_interval_secs),
            crate::duration::duration_millis(d) == self.poll_interval_secs as int * 1000,
    {
        duration_from_secs(self.poll_interval_secs)
    }
}

/// The mount points watched by default: the root file system alone.
pub fn default_mounts() -> (v: Vec<String>)
    ensures
        v.deep_view() == seq!["/"@],
{
    let mut v: Vec<String> = Vec::new();
    v.push(owned("/"));
    assert(v.deep_view() =~= seq!["/"@]);
    v
}

impl Default for DiskConfig {
    fn default() -> (c: Self)
        ensures
            disk_defaults(c),
            c.wf(),
    {
        let c = DiskConfig {
            enabled: true,
            watch_mounts: default_mounts(),
            poll_interval_secs: 10,
            critical_threshold: 95,
            on_critical: Vec::new(),
        };
        proof {
            lemma_disk_defaults_wf(c);
        }
        c
    }
}

impl DiskConfig {
    /// The polling period, `poll_interval_secs` seconds.
    pub fn poll_interval(&self) -> (d: Duration)
        ensures
            d == crate::duration::duration_of_secs(self.poll_interval_secs),
            crate::duration::duration_millis(d) == self.poll_interval_secs as int * 1000,
    {
        duration_from_secs(self.poll_interval_secs)
    }

    /// No mount point is listed twice.
    pub open spec fn wf(&self) -> bool {
        forall|i: int, j: int|
            0 <= i < j < self.watch_mounts@.len() ==> self.watch_mounts@[i]@ != self.watch_mounts@[j]@
    }

    /// Whether `mount_point` is among the watched mount points.
    pub fn watches(&self, mount_point: &String) -> (b: bool)
        ensures
            b == self.watch_mounts.deep_view().contains(mount_point@),
    {
        let n = self.watch_mounts.len();
        let mut i: usize = 0;
        while i < n
            invariant
                n == self.watch_mounts@.len(),
                i <= n,
                forall|k: int| 0 <= k < i ==> self.watch_mounts@[k]@ != mount_point@,
            decreases n - i,
        {
            if self.watch_mounts[i] == *mount_point {
                assert(self.watch_mounts.deep_view()[i as int] == mount_point@);
                return true;
            }
            i += 1;
        }
        assert(!self.watch_mounts.deep_view().contains(mount_point@)) by {
            if self.watch_mounts.deep_view().contains(mount_point@) {
                let k = choose|k: int| 0 <= k < self.watch_mounts.deep_view().len()
                    && self.watch_mounts.deep_view()[k] == mount_point@;
                assert(self.watch_mounts@[k]@ == mount_point@);
            }
        }
        false
    }
}

impl Default for Config {
    fn default() -> (c: Self)
        ensures
            battery_defaults(c.battery),
            memory_defaults(c.memory),
            disk_defaults(c.disk),
            c.disk.wf(),
    {
        Config {
            battery: BatteryConfig::default(),
            memory: MemoryConfig::default(),
            disk: DiskConfig::default(),
        }
    }
}

/// The default disk settings list no mount point twice.
pub proof fn lemma_disk_defaults_wf(c: DiskConfig)
    requires
        disk_defaults(c),
    ensures
        c.wf(),
{
    assert(c.watch_mounts@.len() == c.watch_mounts.deep_view().len());
}

} // verus!
