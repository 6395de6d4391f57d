//! What consumers derive from a (newer, older) pair of snapshots: the change
//! of each counter between them. A counter's change is taken modulo 2^64 (or
//! 2^32 for the 32-bit counters), so that a counter that went backwards, as
//! after a reset, gives a defined value rather than a failure. An entity that
//! is absent from either snapshot gives no change at all.
use vstd::prelude::*;

use crate::collectors::diskstats::{DiskStats, ProcDiskStats, BYTES_PER_SECTOR};
use crate::collectors::meminfo::MemoryStats;
use crate::collectors::net::{InterfaceStats, NetDevStats};
use crate::collectors::procstat::{wrapping_delta, CpuStats, Ticks};
use crate::named::lookup_named;

verus! {

/// The change of a 64-bit counter from `old` to `new`, modulo 2^64.
pub fn counter_delta(new: u64, old: u64) -> (r: u64)
    ensures
        r == wrapping_delta(new, old),
        old <= new ==> r == new - old,
{
    new.wrapping_sub(old)
}

/// `new - old` modulo 2^32: the change of a 32-bit counter.
pub open spec fn wrapping_delta32(new: u32, old: u32) -> u32 {
    if old <= new {
        (new - old) as u32
    } else {
        (new + 0x1_0000_0000 - old) as u32
    }
}

/// The change of a 32-bit counter from `old` to `new`, modulo 2^32.
pub fn counter_delta32(new: u32, old: u32) -> (r: u32)
    ensures
        r == wrapping_delta32(new, old),
        old <= new ==> r == new - old,
{
    new.wrapping_sub(old)
}

/// `a * b`, or `u64::MAX` when the product does not fit.
pub open spec fn saturating_product(a: u64, b: u64) -> u64 {
    if a * b <= u64::MAX {
        (a * b) as u64
    } else {
        u64::MAX
    }
}

/// `a - b`, or zero when `b` is larger.
pub open spec fn saturating_diff(a: u64, b: u64) -> u64 {
    if b <= a {
        (a - b) as u64
    } else {
        0
    }
}

/// Processor ticks spent between two snapshots.
#[derive(Debug, Clone, Copy, PartialEq, Eq)]
pub struct CpuUsage {
    pub user: Ticks,
    pub nice: Ticks,
    pub system: Ticks,
    pub idle: Ticks,
    /// `user + nice + system`.
    pub busy: Ticks,
    /// `busy + idle`.
    pub total: Ticks,
}

/// The ticks spent from `old` to `new`.
pub fn cpu_usage(new: &CpuStats, old: &CpuStats) -> (r: CpuUsage)
    ensures
        r.user.0 == wrapping_delta(new.user.0, old.user.0),
        r.nice.0 == wrapping_delta(new.nice.0, old.nice.0),
        r.system.0 == wrapping_delta(new.system.0, old.system.0),
        r.idle.0 == wrapping_delta(new.idle.0, old.idle.0),
        r.busy.0 == (r.user.0 + r.system.0 + r.nice.0) % 0x1_0000_0000_0000_0000,
        r.total.0 == (r.busy.0 + r.idle.0) % 0x1_0000_0000_0000_0000,
{
    let user = new.user.sub(old.user);
    let nice = new.nice.sub(old.nice);
    let system = new.system.sub(old.system);
    let idle = new.idle.sub(old.idle);
    let busy = user.add(system).add(nice);
    proof {
        assert((((user.0 + system.0) % 0x1_0000_0000_0000_0000) + nice.0) % 0x1_0000_0000_0000_0000
            == (user.0 + system.0 + nice.0) % 0x1_0000_0000_0000_0000) by (nonlinear_arith);
    }
    let total = busy.add(idle);
    CpuUsage { user, nice, system, idle, busy, total }
}

/// The bytes in `sectors` sectors, or `u64::MAX` when they do not fit.
pub fn sectors_to_bytes(sectors: u64) -> (r: u64)
    ensures
        r == saturating_product(sectors, BYTES_PER_SECTOR),
{
    if sectors > u64::MAX / BYTES_PER_SECTOR {
        u64::MAX
    } else {
        sectors * BYTES_PER_SECTOR
    }
}

/// Block-device activity between two snapshots.
#[derive(Debug, Clone, Copy, PartialEq, Eq)]
pub struct DiskDelta {
    /// Milliseconds spent doing I/O.
    pub ms_busy: u32,
    /// Bytes read (saturating at `u64::MAX`).
    pub read_bytes: u64,
    /// Bytes written (saturating at `u64::MAX`).
    pub write_bytes: u64,
}

/// The activity of a device from `old` to `new`.
pub open spec fn disk_activity(new: DiskStats, old: DiskStats) -> DiskDelta {
    DiskDelta {
        ms_busy: wrapping_delta32(new.ms_doing_io, old.ms_doing_io),
        read_bytes: saturating_product(
            wrapping_delta(new.num_sectors_read, old.num_sectors_read),
            BYTES_PER_SECTOR,
        ),
        write_bytes: saturating_product(
            wrapping_delta(new.num_sectors_written, old.num_sectors_written),
            BYTES_PER_SECTOR,
        ),
    }
}

/// The activity of device `name` between two device tables, or `None` when
/// the device is absent from either of them.
pub open spec fn disk_change(
    new: Seq<(Seq<char>, DiskStats)>,
    old: Seq<(Seq<char>, DiskStats)>,
    name: Seq<char>,
) -> Option<DiskDelta> {
    match (lookup_named(new, name), lookup_named(old, name)) {
        (Some(n), Some(o)) => Some(disk_activity(n, o)),
        _ => None,
    }
}

/// The activity of device `name` between two snapshots, or `None` when the
/// device is absent from either of them. The counter differences never fail:
/// they are the plain differences when a counter did not go backwards.
pub fn disk_delta(new: &ProcDiskStats, old: &ProcDiskStats, name: &str) -> (r: Option<DiskDelta>)
    ensures
        r == disk_change(new.disks@, old.disks@, name@),
        match (lookup_named(new.disks@, name@), lookup_named(old.disks@, name@)) {
            (Some(n), Some(o)) => r matches Some(d) && (o.ms_doing_io <= n.ms_doing_io ==> d.ms_busy
                == n.ms_doing_io - o.ms_doing_io) && (o.num_sectors_read <= n.num_sectors_read
                ==> d.read_bytes == saturating_product(
                (n.num_sectors_read - o.num_sectors_read) as u64,
                BYTES_PER_SECTOR,
            )) && (o.num_sectors_written <= n.num_sectors_written ==> d.write_bytes
                == saturating_product(
                (n.num_sectors_written - o.num_sectors_written) as u64,
                BYTES_PER_SECTOR,
            )),
            _ => r is None,
        },
{
    match (new.disks.get(name), old.disks.get(name)) {
        (Some(n), Some(o)) => {
            let sectors_read = counter_delta(n.num_sectors_read, o.num_sectors_read);
            let sectors_written = counter_delta(n.num_sectors_written, o.num_sectors_written);
            Some(
                DiskDelta {
                    ms_busy: counter_delta32(n.ms_doing_io, o.ms_doing_io),
                    read_bytes: sectors_to_bytes(sectors_read),
                    write_bytes: sectors_to_bytes(sectors_written),
                },
            )
        },
        _ => None,
    }
}

/// Network-interface traffic between two snapshots.
#[derive(Debug, Clone, Copy, PartialEq, Eq)]
pub struct InterfaceDelta {
    pub rx_bytes: u64,
    pub tx_bytes: u64,
}

/// The traffic of interface `name` between two interface tables, or `None`
/// when the interface is absent from either of them.
pub open spec fn interface_change(
    new: Seq<(Seq<char>, InterfaceStats)>,
    old: Seq<(Seq<char>, InterfaceStats)>,
    name: Seq<char>,
) -> Option<InterfaceDelta> {
    match (lookup_named(new, name), lookup_named(old, name)) {
        (Some(n), Some(o)) => Some(
            InterfaceDelta {
                rx_bytes: wrapping_delta(n.rx_bytes, o.rx_bytes),
                tx_bytes: wrapping_delta(n.tx_bytes, o.tx_bytes),
            },
        ),
        _ => None,
    }
}

/// The traffic of interface `name` between two snapshots, or `None` when the
/// interface is absent from either of them.
pub fn interface_delta(new: &NetDevStats, old: &NetDevStats, name: &str) -> (r: Option<
    InterfaceDelta,
>)
    ensures
        r == interface_change(new.interfaces@, old.interfaces@, name@),
        match (lookup_named(new.interfaces@, name@), lookup_named(old.interfaces@, name@)) {
            (Some(n), Some(o)) => r matches Some(d) && (o.rx_bytes <= n.rx_bytes ==> d.rx_bytes
                == n.rx_bytes - o.rx_bytes) && (o.tx_bytes <= n.tx_bytes ==> d.tx_bytes == n.tx_bytes
                - o.tx_bytes),
            _ => r is None,
        },
{
    match (new.interfaces.get(name), old.interfaces.get(name)) {
        (Some(n), Some(o)) => Some(
            InterfaceDelta {
                rx_bytes: counter_delta(n.rx_bytes, o.rx_bytes),
                tx_bytes: counter_delta(n.tx_bytes, o.tx_bytes),
            },
        ),
        _ => None,
    }
}

/// Stall time between two pressure snapshots, in microseconds.
#[derive(Debug, Clone, Copy, PartialEq, Eq)]
pub struct StallDelta {
    /// Time in which some tasks were stalled.
    pub some: u64,
    /// Time in which all tasks were stalled.
    pub full: u64,
    /// Time in which some but not all tasks were stalled. The kernel's
    /// accounting can put `full` a microsecond above `some`, so this stops at zero.
    pub some_only: u64,
}

/// The stall time from (`old_some`, `old_full`) to (`new_some`, `new_full`).
pub fn stall_delta(new_some: u64, new_full: u64, old_some: u64, old_full: u64) -> (r: StallDelta)
    ensures
        r.some == wrapping_delta(new_some, old_some),
        r.full == wrapping_delta(new_full, old_full),
        r.some_only == saturating_diff(r.some, r.full),
{
    let some = counter_delta(new_some, old_some);
    let full = counter_delta(new_full, old_full);
    StallDelta { some, full, some_only: some.saturating_sub(full) }
}

/// How memory is used, in kilobytes.
#[derive(Debug, Clone, Copy, PartialEq, Eq)]
pub struct MemoryUse {
    pub total: u64,
    pub available: u64,
    /// Memory that the kernel could not reclaim: `total - available`.
    pub unavailable: u64,
    /// Memory in use that the kernel could reclaim: `available - free`.
    pub available_used: u64,
}

/// How memory is used in a snapshot; the differences of these gauges stop at zero.
pub fn memory_use(m: &MemoryStats) -> (r: MemoryUse)
    ensures
        r.total == m.mem_total,
        r.available == m.mem_available,
        r.unavailable == saturating_diff(m.mem_total, m.mem_available),
        r.available_used == saturating_diff(m.mem_available, m.mem_free),
{
    MemoryUse {
        total: m.mem_total,
        available: m.mem_available,
        unavailable: m.mem_total.saturating_sub(m.mem_available),
        available_used: m.mem_available.saturating_sub(m.mem_free),
    }
}

/// One tick of a disk chart: the activity of device `name` between the two
/// snapshots (`None`: the chart shows the device as not present), and whether
/// the device just vanished, which is reported once.
pub fn disk_sample(new: &ProcDiskStats, old: &ProcDiskStats, name: &str, was_present: bool) -> (r: (
    Option<DiskDelta>,
    bool,
))
    ensures
        r.0 == disk_change(new.disks@, old.disks@, name@),
        r.1 == (was_present && r.0 is None),
{
    let d = disk_delta(new, old, name);
    let (_, vanished) = presence_step(was_present, d.is_some());
    (d, vanished)
}

/// One tick of a network chart: the traffic of interface `name` between the
/// two snapshots (`None`: the chart shows the interface as not present), and
/// whether the interface just vanished, which is reported once.
pub fn interface_sample(new: &NetDevStats, old: &NetDevStats, name: &str, was_present: bool) -> (r: (
    Option<InterfaceDelta>,
    bool,
))
    ensures
        r.0 == interface_change(new.interfaces@, old.interfaces@, name@),
        r.1 == (was_present && r.0 is None),
{
    let d = interface_delta(new, old, name);
    let (_, vanished) = presence_step(was_present, d.is_some());
    (d, vanished)
}

/// Whether a consumer shows an entity, and whether it just stopped showing it.
/// An entity that vanishes is reported once, on the tick on which it goes.
pub fn presence_step(was_present: bool, found: bool) -> (r: (bool, bool))
    ensures
        r.0 == found,
        r.1 == (was_present && !found),
{
    (found, was_present && !found)
}

} // verus!
