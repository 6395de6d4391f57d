use waymon::collectors::diskstats::ProcDiskStats;
use waymon::collectors::meminfo::MemoryStats;
use waymon::collectors::net::NetDevStats;
use waymon::collectors::pressure::{CpuPressure, IoPressure};
use waymon::collectors::procstat::{ProcStat, Ticks};
use waymon::stats::StatsError;

#[test]
fn diskstats_eleven_fields_default_the_rest() {
    let d = ProcDiskStats::parse("   8       0 sda 1 2 3 4 5 6 7 8 9 10 11\n");
    assert_eq!(d.disks.len(), 1);
    let s = d.disks.get("sda").expect("sda");
    assert_eq!(s.num_reads, 1);
    assert_eq!(s.weighted_ms_doing_io, 11);
    assert_eq!(s.num_discards, 0);
    assert_eq!(s.ms_discarding, 0);
    assert_eq!(s.num_flushes, 0);
    assert_eq!(s.ms_flushing, 0);
}

#[test]
fn diskstats_discards_without_discard_time_are_refused() {
    let d = ProcDiskStats::parse("8 0 sda 1 2 3 4 5 6 7 8 9 10 11 12 13\n8 1 sdb 1 2 3 4 5 6 7 8 9 10 11 12 13 14 15\n");
    assert_eq!(d.disks.len(), 1);
    assert!(d.disks.get("sda").is_none());
    let s = d.disks.get("sdb").expect("sdb");
    assert_eq!(s.num_discards, 12);
    assert_eq!(s.ms_discarding, 15);
    assert_eq!(s.num_flushes, 0);
    assert_eq!(s.ms_flushing, 0);
}

#[test]
fn diskstats_bad_lines_are_skipped_and_last_line_wins() {
    let text = "8 0 sda 1 2 3\n8 0 sda x 2 3 4 5 6 7 8 9 10 11\n8 0 sda 1 2 3 4 5 6 7 8 9 10 11\n8 0 sda 9 2 3 4 5 6 7 8 9 10 11\n8 0 sdc 1 2 3 4 5 6 7 8 9 10 4294967296\n";
    let d = ProcDiskStats::parse(text);
    assert_eq!(d.disks.len(), 1);
    assert_eq!(d.disks.get("sda").expect("sda").num_reads, 9);
}

#[test]
fn diskstats_empty_text() {
    assert_eq!(ProcDiskStats::parse("").disks.len(), 0);
}

#[test]
fn net_short_line_fills_leading_fields() {
    let text = "header one\nheader two\n  eth0: 10 20 30\nbroken line\n";
    let s = NetDevStats::parse(text);
    assert_eq!(s.interfaces.len(), 1);
    let e = s.interfaces.get("eth0").expect("eth0");
    assert_eq!(e.rx_bytes, 10);
    assert_eq!(e.rx_packets, 20);
    assert_eq!(e.rx_errs, 30);
    assert_eq!(e.rx_drop, 0);
    assert_eq!(e.tx_compressed, 0);
}

#[test]
fn net_headers_only() {
    assert_eq!(NetDevStats::parse("a: 1\nb: 2").interfaces.len(), 0);
}

#[test]
fn net_bad_counter_skips_line() {
    let s = NetDevStats::parse("h\nh\neth0: 1 x 3\neth1: 4\n");
    assert!(s.interfaces.get("eth0").is_none());
    assert_eq!(s.interfaces.get("eth1").expect("eth1").rx_bytes, 4);
}

#[test]
fn meminfo_line_without_kb_is_skipped() {
    let m = MemoryStats::parse("MemTotal:  100\nMemFree:   +25 kB\nBogus: 3 kB\nMemAvailable: 1x kB\n");
    assert_eq!(m.mem_total, 0);
    assert_eq!(m.mem_free, 25);
    assert_eq!(m.mem_available, 0);
}

#[test]
fn pressure_missing_total_fails() {
    let r = CpuPressure::parse("some avg10=0.00\nfull total=5\n");
    assert!(matches!(r, Err(StatsError::ParseError(_))));
    let r = IoPressure::parse("some total=1x\n");
    assert!(matches!(r, Err(StatsError::ParseError(_))));
}

#[test]
fn pressure_absent_lines_are_zero() {
    let p = IoPressure::parse("other line\nfull x total=7\n").expect("parses");
    assert_eq!(p.some, 0);
    assert_eq!(p.full, 7);
}

#[test]
fn procstat_old_kernel_four_fields() {
    let ps = ProcStat::parse("cpu  1 2 3 4\ncpu2 5 6 7 8\n");
    assert_eq!(ps.cpu.idle, Ticks(4));
    assert_eq!(ps.cpu.iowait, Ticks(0));
    assert_eq!(ps.cpus.len(), 3);
    assert_eq!(ps.cpus[0].user, Ticks(0));
    assert_eq!(ps.cpus[2].idle, Ticks(8));
}

#[test]
fn procstat_rejects_huge_cpu_id() {
    let ps = ProcStat::parse("cpu1048577 1 2 3 4\ncpu1 1 2 3\n");
    assert_eq!(ps.cpus.len(), 2);
    // A line that stops early keeps the fields it read.
    assert_eq!(ps.cpus[1].user, Ticks(1));
    assert_eq!(ps.cpus[1].system, Ticks(3));
    assert_eq!(ps.cpus[1].idle, Ticks(0));
}

#[test]
fn procstat_scalars_and_bad_values() {
    let ps = ProcStat::parse("btime 12\nctxt -1\nprocesses 99999999999999999999\nprocs_running 3\n");
    assert_eq!(ps.boot_time, 12);
    assert_eq!(ps.num_context_switches, 0);
    assert_eq!(ps.num_forks, 0);
    assert_eq!(ps.procs_running, 3);
}

#[test]
fn procstat_largest_counter() {
    let ps = ProcStat::parse("ctxt 18446744073709551615\nprocesses 18446744073709551616\n");
    assert_eq!(ps.num_context_switches, u64::MAX);
    assert_eq!(ps.num_forks, 0);
}

#[test]
fn parsing_twice_gives_equal_snapshots() {
    let text = "cpu  1 2 3 4 5\ncpu0 1 2 3 4\nbtime 7\n";
    let a = ProcStat::parse(text);
    let b = ProcStat::parse(text);
    assert_eq!(a.cpu, b.cpu);
    assert_eq!(a.cpus, b.cpus);
    assert_eq!(a.boot_time, b.boot_time);
    let d = "8 0 sda 1 2 3 4 5 6 7 8 9 10 11\n";
    assert_eq!(ProcDiskStats::parse(d).disks.get("sda"), ProcDiskStats::parse(d).disks.get("sda"));
}

#[test]
fn pressure_total_followed_by_other_tokens() {
    let p = CpuPressure::parse("some total=5 avg10=0.00\nfull avg10=1.0 total=7\tx\n").expect("parses");
    assert_eq!(p.some, 5);
    assert_eq!(p.full, 7);
}

#[test]
fn pressure_errors_name_the_failure() {
    match CpuPressure::parse("some avg10=0.00\n") {
        Err(StatsError::ParseError(m)) => assert_eq!(m, "unparseable Linux PSI line"),
        other => panic!("unexpected {:?}", other),
    }
    match IoPressure::parse("full total=x1\n") {
        Err(StatsError::ParseError(m)) => assert_eq!(m, "invalid integer in Linux PSI file"),
        other => panic!("unexpected {:?}", other),
    }
}

#[test]
fn meminfo_reports_first_bad_line() {
    let (m, first) = MemoryStats::parse_with_first_error("MemTotal: 5 kB\nMemFree: 3\nCached: x kB\n");
    assert_eq!(m.mem_total, 5);
    assert_eq!(first, Some((1, waymon::collectors::meminfo::ParseError::UnexpectedData)));
    let (_, none) = MemoryStats::parse_with_first_error("MemTotal: 5 kB\n");
    assert_eq!(none, None);
}

#[test]
fn pressure_reads_the_total_token() {
    let p = CpuPressure::parse("some total=5x total=5\nfull total=7\n").expect("parses");
    assert_eq!((p.some, p.full), (5, 7));
    let p = IoPressure::parse("some xtotal=1 avg=2 total=5\nfull a total=9 b\n").expect("parses");
    assert_eq!((p.some, p.full), (5, 9));
}

#[test]
fn procstat_aggregate_marker_not_followed_by_digit() {
    let ps = ProcStat::parse("cpu 1 2 3 4\ncpu\t5 6 7 8 9\n");
    assert_eq!(ps.cpu.user, Ticks(5));
    assert_eq!(ps.cpu.idle, Ticks(8));
    assert_eq!(ps.cpu.iowait, Ticks(9));
    assert_eq!(ps.cpus.len(), 0);
    let ps = ProcStat::parse("cpu 1 2 3 4\n");
    assert_eq!(ps.cpu.user, Ticks(1));
    assert_eq!(ps.cpu.idle, Ticks(4));
}
