use waymon::collectors::diskstats::ProcDiskStats;
use waymon::collectors::meminfo::MemoryStats;
use waymon::collectors::net::NetDevStats;
use waymon::collectors::pressure::MemoryPressure;
use waymon::collectors::procstat::{CpuStats, Ticks};
use waymon::rates::{
    counter_delta, counter_delta32, cpu_usage, disk_delta, disk_sample, interface_delta,
    interface_sample, memory_use, presence_step, sectors_to_bytes, stall_delta,
};
use waymon::read::{check_read_size, ReadError};
use waymon::stats::{AllStats, Readings, StatKind, StatsDelta, StatsError};

#[test]
fn counter_delta_forward_and_reset() {
    assert_eq!(counter_delta(10, 3), 7);
    assert_eq!(counter_delta(u64::MAX, 0), u64::MAX);
    assert_eq!(counter_delta(3, 10), u64::MAX - 6);
    assert_eq!(counter_delta32(3, 10), u32::MAX - 6);
    assert_eq!(Ticks(5).sub(Ticks(7)), Ticks(u64::MAX - 1));
    assert_eq!(Ticks(u64::MAX).add(Ticks(2)), Ticks(1));
}

#[test]
fn cpu_usage_of_two_samples() {
    let mut old = CpuStats::zero();
    old.user = Ticks(100);
    old.idle = Ticks(1000);
    let mut new = old;
    new.user = Ticks(130);
    new.nice = Ticks(5);
    new.system = Ticks(15);
    new.idle = Ticks(1100);
    let u = cpu_usage(&new, &old);
    assert_eq!(u.user, Ticks(30));
    assert_eq!(u.busy, Ticks(50));
    assert_eq!(u.total, Ticks(150));
}

#[test]
fn disk_delta_of_two_samples_and_absent_device() {
    let old = ProcDiskStats::parse("8 0 sda 1 0 100 0 1 0 50 0 0 1000 0\n8 1 sdb 1 0 0 0 0 0 0 0 0 0 0\n");
    let new = ProcDiskStats::parse("8 0 sda 1 0 300 0 1 0 60 0 0 1500 0\n");
    let d = disk_delta(&new, &old, "sda").expect("sda");
    assert_eq!(d.read_bytes, 200 * 512);
    assert_eq!(d.write_bytes, 10 * 512);
    assert_eq!(d.ms_busy, 500);
    assert!(disk_delta(&new, &old, "sdb").is_none());
    assert!(disk_delta(&old, &new, "sdb").is_none());
    assert!(disk_delta(&new, &old, "sdz").is_none());
}

#[test]
fn sector_bytes_saturate() {
    assert_eq!(sectors_to_bytes(3), 1536);
    assert_eq!(sectors_to_bytes(u64::MAX / 256), u64::MAX);
}

#[test]
fn interface_delta_and_absent_interface() {
    let old = NetDevStats::parse("h\nh\nlo: 100 1 0 0 0 0 0 0 50 1\n");
    let new = NetDevStats::parse("h\nh\nlo: 160 2 0 0 0 0 0 0 80 2\neth0: 1\n");
    let d = interface_delta(&new, &old, "lo").expect("lo");
    assert_eq!(d.rx_bytes, 60);
    assert_eq!(d.tx_bytes, 30);
    assert!(interface_delta(&new, &old, "eth0").is_none());
}

#[test]
fn stall_delta_some_only_stops_at_zero() {
    let s = stall_delta(110, 51, 100, 40);
    assert_eq!(s.some, 10);
    assert_eq!(s.full, 11);
    assert_eq!(s.some_only, 0);
    assert_eq!(stall_delta(130, 50, 100, 40).some_only, 20);
}

#[test]
fn memory_use_of_snapshot() {
    let m = MemoryStats::parse("MemTotal: 1000 kB\nMemFree: 100 kB\nMemAvailable: 400 kB\n");
    let u = memory_use(&m);
    assert_eq!(u.unavailable, 600);
    assert_eq!(u.available_used, 300);
    let odd = MemoryStats::parse("MemTotal: 10 kB\nMemAvailable: 20 kB\n");
    assert_eq!(memory_use(&odd).unavailable, 0);
}

#[test]
fn presence_is_reported_once() {
    assert_eq!(presence_step(true, false), (false, true));
    assert_eq!(presence_step(false, false), (false, false));
    assert_eq!(presence_step(false, true), (true, false));
}

#[test]
fn read_size_ceiling() {
    assert_eq!(check_read_size(4096, 4096), Ok(()));
    assert_eq!(check_read_size(4097, 4096), Err(ReadError::TooLarge));
}

fn pressure(some: u64, full: u64) -> MemoryPressure {
    MemoryPressure { some, full }
}

#[test]
fn store_refreshes_alternate_buffers() {
    let mut d = StatsDelta::new(Ok(pressure(1, 1)), 1_000);
    let (n, o) = d.get_new_and_old();
    assert_eq!((*n, *o), (pressure(1, 1), pressure(1, 1)));
    assert_eq!(d.time_delta(), 0);
    for k in 2..=5u64 {
        d.update(Ok(pressure(k, k)), k * 1_000).expect("refresh");
        let (n, o) = d.get_new_and_old();
        assert_eq!(*n, pressure(k, k));
        assert_eq!(*o, pressure(k - 1, k - 1));
        assert_eq!(d.time_delta(), 1_000);
    }
    let r = d.update(Err(StatsError::ParseError("bad".to_string())), 9_000);
    assert!(r.is_err());
    assert_eq!(*d.get_new(), pressure(5, 5));
    assert_eq!(d.time_delta(), 1_000);
}

#[test]
fn store_seeded_with_zero_after_failed_first_read() {
    let d: StatsDelta<MemoryPressure> = StatsDelta::new(Err(StatsError::IoError(ReadError::NotFound)), 5);
    assert_eq!(*d.get_new(), pressure(0, 0));
    let (n, o) = d.get_new_and_old();
    assert_eq!(n, o);
}

#[test]
fn store_clock_going_backwards_gives_zero_elapsed() {
    let mut d = StatsDelta::new(Ok(pressure(1, 1)), 1_000);
    d.update(Ok(pressure(2, 2)), 500).expect("refresh");
    assert_eq!(d.time_delta(), 0);
}

#[test]
fn registry_creates_once_and_refreshes_active_stores() {
    let mut all = AllStats::new();
    assert!(!all.is_active(StatKind::MemPressure));
    all.get_mem_pressure(Ok(pressure(1, 1)), 0);
    // A second request returns the same store; its first read is not used.
    let d = all.get_mem_pressure(Ok(pressure(9, 9)), 10);
    assert_eq!(*d.get_new(), pressure(1, 1));
    assert!(all.is_active(StatKind::MemPressure));
    assert!(!all.is_active(StatKind::CpuPressure));

    let mut readings = Readings::none();
    readings.mem_pressure = Some(Ok(pressure(2, 2)));
    readings.cpu_pressure = Some(Ok(waymon::collectors::pressure::CpuPressure { some: 5, full: 5 }));
    let failures = all.update(100, readings);
    assert!(failures.is_empty());
    let s = all.mem_pressure().expect("active");
    assert_eq!(s.get_new_and_old(), (&pressure(2, 2), &pressure(1, 1)));
    assert_eq!(s.time_delta(), 100);
    assert!(all.cpu_pressure().is_none());

    let mut readings = Readings::none();
    readings.mem_pressure = Some(Err(StatsError::ParseError("bad".to_string())));
    let failures = all.update(200, readings);
    assert_eq!(failures.len(), 1);
    assert_eq!(failures[0].0, StatKind::MemPressure);
    assert_eq!(*all.mem_pressure().expect("active").get_new(), pressure(2, 2));
}

#[test]
fn vanished_device_is_reported_once() {
    let old = ProcDiskStats::parse("8 0 sda 1 0 100 0 1 0 50 0 0 1000 0\n");
    let new = ProcDiskStats::parse("8 0 sda 1 0 90 0 1 0 50 0 0 900 0\n");
    let (d, vanished) = disk_sample(&new, &old, "sda", true);
    let d = d.expect("present");
    assert_eq!(d.ms_busy, u32::MAX - 99);
    assert_eq!(d.read_bytes, u64::MAX);
    assert!(!vanished);
    let gone = ProcDiskStats::parse("");
    assert_eq!(disk_sample(&gone, &old, "sda", true), (None, true));
    assert_eq!(disk_sample(&gone, &old, "sda", false), (None, false));
    let old_net = NetDevStats::parse("h\nh\neth0: 5\n");
    let new_net = NetDevStats::parse("h\nh\n");
    assert_eq!(interface_sample(&new_net, &old_net, "eth0", true), (None, true));
}
