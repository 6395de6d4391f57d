//! Processor tick counters and scalar counters (`/proc/stat`).
//!
//! A `cpu ...` line gives the aggregate ticks, a `cpu<N> ...` line the ticks
//! of processor N; the first four tick fields are required and the other six,
//! added to the format over several kernel releases, default to zero. The
//! `btime`, `ctxt`, `processes`, `procs_running` and `procs_blocked` lines give
//! scalar counters; other lines are ignored. A line that cannot be read is
//! skipped; the other lines are still read.
use vstd::prelude::*;

use crate::stats::{StatType, StatsError};

use crate::text::{chars_of, is_digit, lines, parse_u64, parse_u64_slice, split, split_all,
    split_first, split_once, split_once_slice, strip_prefix, strip_prefix_slice, trim_start,
    trim_start_slice};

verus! {

pub const PROC_STAT_PATH: &'static str = "/proc/stat";

/// Largest stat file that is read.
pub const MAX_FILE_SIZE: u64 = 1024 * 1024;

/// Largest processor number that is accepted, so that a corrupt number cannot
/// make the per-processor table huge.
pub const MAX_NUM_CPUS: u64 = 1024 * 1024;

/// Number of tick fields on a processor line.
pub const NUM_TICK_FIELDS: usize = 10;

/// Number of tick fields every processor line must give.
pub const NUM_REQUIRED_TICK_FIELDS: usize = 4;

/// Why one line could not be read.
#[derive(Debug, Clone, Copy, PartialEq, Eq)]
pub enum ParseError {
    /// A value is not a decimal integer that fits in 64 bits.
    ParseIntError,
    /// A processor line has no number.
    NoCpuId,
    /// A processor number is above `MAX_NUM_CPUS`.
    MaxCpuCountExceeded,
    /// A processor line lacks one of its required tick fields.
    MissingCpuField,
}

/// A count of clock ticks.
#[derive(Copy, Clone, Debug, PartialEq, Eq)]
pub struct Ticks(pub u64);

impl Ticks {
    pub fn value(&self) -> (r: u64)
        ensures
            r == self.0,
    {
        self.0
    }

    /// The ticks from `older` to `self`, modulo 2^64: a counter that went
    /// backwards (a reset) gives a defined value rather than a failure.
    pub fn sub(self, older: Ticks) -> (r: Ticks)
        ensures
            r.0 == wrapping_delta(self.0, older.0),
            older.0 <= self.0 ==> r.0 == self.0 - older.0,
    {
        Ticks(self.0.wrapping_sub(older.0))
    }

    /// The sum of two tick counts, modulo 2^64.
    pub fn add(self, other: Ticks) -> (r: Ticks)
        ensures
            r.0 == (self.0 + other.0) % 0x1_0000_0000_0000_0000,
            self.0 + other.0 <= u64::MAX ==> r.0 == self.0 + other.0,
    {
        Ticks(self.0.wrapping_add(other.0))
    }
}

/// `new - old` modulo 2^64: the change of a 64-bit counter from `old` to `new`.
pub open spec fn wrapping_delta(new: u64, old: u64) -> u64 {
    if old <= new {
        (new - old) as u64
    } else {
        (new + 0x1_0000_0000_0000_0000 - old) as u64
    }
}

/// The tick counts of one processor, or of all of them together.
#[derive(Debug, Clone, Copy, PartialEq, Eq)]
pub struct CpuStats {
    pub user: Ticks,
    pub nice: Ticks,
    pub system: Ticks,
    pub idle: Ticks,
    pub iowait: Ticks,
    pub irq: Ticks,
    pub softirq: Ticks,
    pub steal: Ticks,
    pub guest: Ticks,
    pub guest_nice: Ticks,
}

/// Tick field `k` of `c`, in the order of a processor line.
pub open spec fn cpu_field(c: CpuStats, k: int) -> u64 {
    if k == 0 {
        c.user.0
    } else if k == 1 {
        c.nice.0
    } else if k == 2 {
        c.system.0
    } else if k == 3 {
        c.idle.0
    } else if k == 4 {
        c.iowait.0
    } else if k == 5 {
        c.irq.0
    } else if k == 6 {
        c.softirq.0
    } else if k == 7 {
        c.steal.0
    } else if k == 8 {
        c.guest.0
    } else {
        c.guest_nice.0
    }
}

/// `c` with tick field `k` set to `v`.
pub open spec fn with_cpu_field(c: CpuStats, k: int, v: u64) -> CpuStats {
    if k == 0 {
        CpuStats { user: Ticks(v), ..c }
    } else if k == 1 {
        CpuStats { nice: Ticks(v), ..c }
    } else if k == 2 {
        CpuStats { system: Ticks(v), ..c }
    } else if k == 3 {
        CpuStats { idle: Ticks(v), ..c }
    } else if k == 4 {
        CpuStats { iowait: Ticks(v), ..c }
    } else if k == 5 {
        CpuStats { irq: Ticks(v), ..c }
    } else if k == 6 {
        CpuStats { softirq: Ticks(v), ..c }
    } else if k == 7 {
        CpuStats { steal: Ticks(v), ..c }
    } else if k == 8 {
        CpuStats { guest: Ticks(v), ..c }
    } else if k == 9 {
        CpuStats { guest_nice: Ticks(v), ..c }
    } else {
        c
    }
}

/// All ticks zero.
pub open spec fn cpu_zero() -> CpuStats {
    CpuStats {
        user: Ticks(0),
        nice: Ticks(0),
        system: Ticks(0),
        idle: Ticks(0),
        iowait: Ticks(0),
        irq: Ticks(0),
        softirq: Ticks(0),
        steal: Ticks(0),
        guest: Ticks(0),
        guest_nice: Ticks(0),
    }
}

/// Reads tick fields `k..10` from the tokens `ts` into `c`, in order: a
/// present field must be an integer, an absent one is required (the first
/// four) or becomes zero. Fields before a failure keep their new values.
pub open spec fn cpu_apply(c: CpuStats, ts: Seq<Seq<char>>, k: int) -> (CpuStats, Result<(), ParseError>)
    decreases NUM_TICK_FIELDS - k,
{
    if k < 0 || k >= NUM_TICK_FIELDS {
        (c, Ok(()))
    } else if k < ts.len() {
        match parse_u64(ts[k]) {
            Some(v) => cpu_apply(with_cpu_field(c, k, v), ts, k + 1),
            None => (c, Err(ParseError::ParseIntError)),
        }
    } else if k < NUM_REQUIRED_TICK_FIELDS {
        (c, Err(ParseError::MissingCpuField))
    } else {
        cpu_apply(with_cpu_field(c, k, 0), ts, k + 1)
    }
}

/// What the tick fields of a processor line (single-space separated) do to `c`.
pub open spec fn cpu_line_model(c: CpuStats, line: Seq<char>) -> (CpuStats, Result<(), ParseError>) {
    cpu_apply(c, split(line, ' '), 0)
}

impl CpuStats {
    /// All ticks zero.
    pub fn zero() -> (r: CpuStats)
        ensures
            r == cpu_zero(),
    {
        CpuStats {
            user: Ticks(0),
            nice: Ticks(0),
            system: Ticks(0),
            idle: Ticks(0),
            iowait: Ticks(0),
            irq: Ticks(0),
            softirq: Ticks(0),
            steal: Ticks(0),
            guest: Ticks(0),
            guest_nice: Ticks(0),
        }
    }

    fn set_field(&mut self, k: usize, v: u64)
        requires
            k < NUM_TICK_FIELDS,
        ensures
            *final(self) == with_cpu_field(*old(self), k as int, v),
    {
        if k == 0 {
            self.user = Ticks(v);
        } else if k == 1 {
            self.nice = Ticks(v);
        } else if k == 2 {
            self.system = Ticks(v);
        } else if k == 3 {
            self.idle = Ticks(v);
        } else if k == 4 {
            self.iowait = Ticks(v);
        } else if k == 5 {
            self.irq = Ticks(v);
        } else if k == 6 {
            self.softirq = Ticks(v);
        } else if k == 7 {
            self.steal = Ticks(v);
        } else if k == 8 {
            self.guest = Ticks(v);
        } else {
            self.guest_nice = Ticks(v);
        }
    }

    /// Reads the tick fields of a processor line (after its `cpu` or `cpu<N>`)
    /// into `self`.
    pub fn parse(&mut self, line: &[char]) -> (r: Result<(), ParseError>)
        ensures
            (*final(self), r) == cpu_line_model(*old(self), line@),
    {
        let ts = split_first(line, ' ', NUM_TICK_FIELDS);
        let ghost all = split(line@, ' ');
        let n = ts.len();
        let mut k: usize = 0;
        while k < NUM_TICK_FIELDS
            invariant
                all == split(line@, ' '),
                n == ts@.len(),
                n <= NUM_TICK_FIELDS,
                n == all.len() || n == NUM_TICK_FIELDS,
                n <= all.len(),
                forall|j: int| 0 <= j < n ==> (#[trigger] ts@[j])@ == all[j],
                k <= NUM_TICK_FIELDS,
                cpu_apply(*self, all, k as int) == cpu_line_model(*old(self), line@),
            decreases NUM_TICK_FIELDS - k,
        {
            if k < n {
                match parse_u64_slice(ts[k]) {
                    Some(v) => self.set_field(k, v),
                    None => return Err(ParseError::ParseIntError),
                }
            } else {
                if k < NUM_REQUIRED_TICK_FIELDS {
                    return Err(ParseError::MissingCpuField);
                }
                self.set_field(k, 0);
            }
            k += 1;
        }
        Ok(())
    }
}

/// The contents of a [`ProcStat`].
pub struct ProcStatView {
    pub cpu: CpuStats,
    pub cpus: Seq<CpuStats>,
    pub num_forks: u64,
    pub num_context_switches: u64,
    pub procs_running: u64,
    pub procs_blocked: u64,
    pub boot_time: u64,
}

/// Everything that `/proc/stat` reports and that is kept.
pub struct ProcStat {
    /// Ticks of all processors together.
    pub cpu: CpuStats,
    /// Ticks of each processor, by processor number.
    pub cpus: Vec<CpuStats>,
    /// Processes created since boot.
    pub num_forks: u64,
    /// Context switches since boot.
    pub num_context_switches: u64,
    /// Processes that are runnable (a gauge).
    pub procs_running: u64,
    /// Processes blocked on I/O (a gauge).
    pub procs_blocked: u64,
    /// Boot time, in seconds since the epoch.
    pub boot_time: u64,
}

impl View for ProcStat {
    type V = ProcStatView;

    open spec fn view(&self) -> ProcStatView {
        ProcStatView {
            cpu: self.cpu,
            cpus: self.cpus@,
            num_forks: self.num_forks,
            num_context_switches: self.num_context_switches,
            procs_running: self.procs_running,
            procs_blocked: self.procs_blocked,
            boot_time: self.boot_time,
        }
    }
}

/// Nothing read yet: all counters zero, no processors.
pub open spec fn stat_zero() -> ProcStatView {
    ProcStatView {
        cpu: cpu_zero(),
        cpus: Seq::empty(),
        num_forks: 0,
        num_context_switches: 0,
        procs_running: 0,
        procs_blocked: 0,
        boot_time: 0,
    }
}

/// `s` extended with zero records up to length `n`.
pub open spec fn grown(s: Seq<CpuStats>, n: int) -> Seq<CpuStats> {
    if s.len() >= n {
        s
    } else {
        s + Seq::new((n - s.len()) as nat, |i: int| cpu_zero())
    }
}

/// Whether the rest of a processor line (after its `cpu`) starts with a
/// digit, that is whether it is a numbered processor line.
pub open spec fn starts_with_digit(d: Seq<char>) -> bool {
    d.len() > 0 && is_digit(d[0])
}

/// What a processor line (after its `cpu`) does to `m`. A line whose marker
/// is not followed by a digit gives the aggregate ticks, its fields after the
/// leading whitespace; a numbered line first grows the per-processor table to
/// hold its processor.
pub open spec fn cpu_line(m: ProcStatView, d: Seq<char>) -> (ProcStatView, Result<(), ParseError>) {
    if !starts_with_digit(d) {
        let (c, r) = cpu_line_model(m.cpu, trim_start(d));
        (ProcStatView { cpu: c, ..m }, r)
    } else {
        match split_once(d, ' ') {
            None => (m, Err(ParseError::NoCpuId)),
            Some((id, x)) => match parse_u64(id) {
                None => (m, Err(ParseError::ParseIntError)),
                Some(id) => if id > MAX_NUM_CPUS {
                    (m, Err(ParseError::MaxCpuCountExceeded))
                } else {
                    let cpus = grown(m.cpus, id + 1);
                    let (c, r) = cpu_line_model(cpus[id as int], x);
                    (ProcStatView { cpus: cpus.update(id as int, c), ..m }, r)
                },
            },
        }
    }
}

/// The value of a scalar line, or the failure to read it.
pub open spec fn scalar(d: Seq<char>) -> Result<u64, ParseError> {
    match parse_u64(d) {
        Some(v) => Ok(v),
        None => Err(ParseError::ParseIntError),
    }
}

/// What one line of `/proc/stat` does to `m`, and whether it was read.
pub open spec fn stat_line(m: ProcStatView, line: Seq<char>) -> (ProcStatView, Result<(), ParseError>) {
    if let Some(d) = strip_prefix(line, "cpu"@) {
        cpu_line(m, d)
    } else if let Some(d) = strip_prefix(line, "btime "@) {
        match scalar(d) {
            Ok(v) => (ProcStatView { boot_time: v, ..m }, Ok(())),
            Err(e) => (m, Err(e)),
        }
    } else if let Some(d) = strip_prefix(line, "ctxt "@) {
        match scalar(d) {
            Ok(v) => (ProcStatView { num_context_switches: v, ..m }, Ok(())),
            Err(e) => (m, Err(e)),
        }
    } else if let Some(d) = strip_prefix(line, "processes "@) {
        match scalar(d) {
            Ok(v) => (ProcStatView { num_forks: v, ..m }, Ok(())),
            Err(e) => (m, Err(e)),
        }
    } else if let Some(d) = strip_prefix(line, "procs_running "@) {
        match scalar(d) {
            Ok(v) => (ProcStatView { procs_running: v, ..m }, Ok(())),
            Err(e) => (m, Err(e)),
        }
    } else if let Some(d) = strip_prefix(line, "procs_blocked "@) {
        match scalar(d) {
            Ok(v) => (ProcStatView { procs_blocked: v, ..m }, Ok(())),
            Err(e) => (m, Err(e)),
        }
    } else {
        (m, Ok(()))
    }
}

/// The contents after reading the lines `ls` in order.
pub open spec fn stat_fold(m: ProcStatView, ls: Seq<Seq<char>>) -> ProcStatView
    decreases ls.len(),
{
    if ls.len() == 0 {
        m
    } else {
        stat_fold(stat_line(m, ls[0]).0, ls.drop_first())
    }
}

/// The per-processor table never grows beyond `MAX_NUM_CPUS + 1` records.
pub proof fn lemma_stat_fold_cpus(m: ProcStatView, ls: Seq<Seq<char>>)
    requires
        m.cpus.len() <= MAX_NUM_CPUS + 1,
    ensures
        stat_fold(m, ls).cpus.len() <= MAX_NUM_CPUS + 1,
    decreases ls.len(),
{
    if ls.len() > 0 {
        lemma_stat_fold_cpus(stat_line(m, ls[0]).0, ls.drop_first());
    }
}

/// The processor number of a numbered processor line whose number is
/// accepted (at most `MAX_NUM_CPUS`), whatever its tick fields hold.
pub open spec fn accepted_cpu_id(line: Seq<char>) -> Option<u64> {
    match strip_prefix(line, "cpu"@) {
        Some(d) => if !starts_with_digit(d) {
            None
        } else {
            match split_once(d, ' ') {
                Some((id, _)) => match parse_u64(id) {
                    Some(v) => if v <= MAX_NUM_CPUS {
                        Some(v)
                    } else {
                        None
                    },
                    None => None,
                },
                None => None,
            }
        },
        None => None,
    }
}

/// A numbered processor line whose number is above `MAX_NUM_CPUS` is refused
/// and changes nothing: no record is added for it.
pub proof fn lemma_cpu_id_too_large(m: ProcStatView, d: Seq<char>)
    requires
        starts_with_digit(d),
        split_once(d, ' ') matches Some((id, _)) && parse_u64(id) matches Some(v) && v
            > MAX_NUM_CPUS,
    ensures
        cpu_line(m, d) == (m, Err::<(), ParseError>(ParseError::MaxCpuCountExceeded)),
{
}

/// One line changes the length of the per-processor table only when it is a
/// numbered processor line with an accepted number, which it makes the last.
pub proof fn lemma_stat_line_cpus(m: ProcStatView, line: Seq<char>)
    ensures
        stat_line(m, line).0.cpus.len() == m.cpus.len() || (accepted_cpu_id(line) matches Some(
            id,
        ) && stat_line(m, line).0.cpus.len() == id + 1),
{
}

/// The per-processor table read from the lines `ls` into `m` either keeps its
/// length or ends at a processor number accepted from one of the lines.
pub proof fn lemma_stat_fold_cpus_last(m: ProcStatView, ls: Seq<Seq<char>>)
    ensures
        stat_fold(m, ls).cpus.len() == m.cpus.len() || exists|i: int|
            0 <= i < ls.len() && accepted_cpu_id(#[trigger] ls[i]) == Some(
                (stat_fold(m, ls).cpus.len() - 1) as u64,
            ),
    decreases ls.len(),
{
    if ls.len() > 0 {
        let m1 = stat_line(m, ls[0]).0;
        lemma_stat_line_cpus(m, ls[0]);
        lemma_stat_fold_cpus_last(m1, ls.drop_first());
        let n = stat_fold(m, ls).cpus.len();
        if n != m.cpus.len() {
            if n == m1.cpus.len() {
                assert(accepted_cpu_id(ls[0]) == Some((n - 1) as u64));
            } else {
                let i = choose|i: int|
                    0 <= i < ls.drop_first().len() && accepted_cpu_id(
                        #[trigger] ls.drop_first()[i],
                    ) == Some((n - 1) as u64);
                assert(ls[i + 1] == ls.drop_first()[i]);
            }
        }
    }
}

/// What a `/proc/stat` text describes.
pub open spec fn stat_model(data: Seq<char>) -> ProcStatView {
    stat_fold(stat_zero(), lines(data))
}

/// The line prefixes that are recognised.
struct StatKeys {
    cpu: Vec<char>,
    btime: Vec<char>,
    ctxt: Vec<char>,
    processes: Vec<char>,
    running: Vec<char>,
    blocked: Vec<char>,
}

impl StatKeys {
    spec fn wf(&self) -> bool {
        &&& self.cpu@ == "cpu"@
        &&& self.btime@ == "btime "@
        &&& self.ctxt@ == "ctxt "@
        &&& self.processes@ == "processes "@
        &&& self.running@ == "procs_running "@
        &&& self.blocked@ == "procs_blocked "@
    }

    fn new() -> (r: StatKeys)
        ensures
            r.wf(),
    {
        StatKeys {
            cpu: chars_of("cpu"),
            btime: chars_of("btime "),
            ctxt: chars_of("ctxt "),
            processes: chars_of("processes "),
            running: chars_of("procs_running "),
            blocked: chars_of("procs_blocked "),
        }
    }
}

impl ProcStat {
    /// Nothing read yet: all counters zero, no processors.
    pub fn new_zero() -> (r: ProcStat)
        ensures
            r@ == stat_zero(),
    {
        ProcStat {
            cpu: CpuStats::zero(),
            cpus: Vec::new(),
            num_forks: 0,
            num_context_switches: 0,
            procs_running: 0,
            procs_blocked: 0,
            boot_time: 0,
        }
    }

    /// Parses a `/proc/stat` text. Lines that cannot be read are skipped.
    pub fn parse(data: &str) -> (r: ProcStat)
        ensures
            r@ == stat_model(data@),
            r.cpus@.len() <= MAX_NUM_CPUS + 1,
            r.cpus@.len() == 0 || exists|i: int|
                0 <= i < lines(data@).len() && accepted_cpu_id(#[trigger] lines(data@)[i]) == Some(
                    (r.cpus@.len() - 1) as u64,
                ),
    {
        proof {
            lemma_stat_fold_cpus_last(stat_zero(), lines(data@));
            lemma_stat_fold_cpus(stat_zero(), lines(data@));
        }
        let text = chars_of(data);
        let keys = StatKeys::new();
        let ls = split_all(text.as_slice(), '\n');
        let ghost all = lines(data@);
        let mut ps = ProcStat::new_zero();
        let mut i: usize = 0;
        assert(all.skip(0) =~= all);
        while i < ls.len()
            invariant
                all == split(data@, '\n'),
                ls@.len() == all.len(),
                forall|k: int| 0 <= k < ls@.len() ==> (#[trigger] ls@[k])@ == all[k],
                keys.wf(),
                i <= ls@.len(),
                stat_fold(ps@, all.skip(i as int)) == stat_model(data@),
            decreases ls@.len() - i,
        {
            let line = ls[i];
            let ghost rest = all.skip(i as int);
            assert(rest[0] == line@);
            assert(rest.drop_first() =~= all.skip(i + 1));
            let _ = ps.parse_line(line, &keys);
            i += 1;
        }
        assert(all.skip(i as int) =~= Seq::<Seq<char>>::empty());
        ps
    }

    fn parse_line(&mut self, line: &[char], keys: &StatKeys) -> (r: Result<(), ParseError>)
        requires
            keys.wf(),
        ensures
            (final(self)@, r) == stat_line(old(self)@, line@),
    {
        if let Some(data) = strip_prefix_slice(line, keys.cpu.as_slice()) {
            self.parse_cpu_line(data, keys)
        } else if let Some(data) = strip_prefix_slice(line, keys.btime.as_slice()) {
            self.boot_time = parse_scalar(data)?;
            Ok(())
        } else if let Some(data) = strip_prefix_slice(line, keys.ctxt.as_slice()) {
            self.num_context_switches = parse_scalar(data)?;
            Ok(())
        } else if let Some(data) = strip_prefix_slice(line, keys.processes.as_slice()) {
            self.num_forks = parse_scalar(data)?;
            Ok(())
        } else if let Some(data) = strip_prefix_slice(line, keys.running.as_slice()) {
            self.procs_running = parse_scalar(data)?;
            Ok(())
        } else if let Some(data) = strip_prefix_slice(line, keys.blocked.as_slice()) {
            self.procs_blocked = parse_scalar(data)?;
            Ok(())
        } else {
            // The intr and softirq lines, and lines of newer kernels, are not read.
            Ok(())
        }
    }

    fn parse_cpu_line(&mut self, line: &[char], keys: &StatKeys) -> (r: Result<(), ParseError>)
        requires
            keys.wf(),
        ensures
            (final(self)@, r) == cpu_line(old(self)@, line@),
    {
        if line.len() == 0 || !('0' <= line[0] && line[0] <= '9') {
            self.cpu.parse(trim_start_slice(line))
        } else {
            let (cpu_id_str, data) = match split_once_slice(line, ' ') {
                Some(p) => p,
                None => return Err(ParseError::NoCpuId),
            };
            let cpu_id = match parse_u64_slice(cpu_id_str) {
                Some(v) => v,
                None => return Err(ParseError::ParseIntError),
            };
            if cpu_id > MAX_NUM_CPUS {
                // A corrupt processor number must not make the table huge.
                return Err(ParseError::MaxCpuCountExceeded);
            }
            let cpu_index = cpu_id as usize;
            let ghost before = self.cpus@;
            while self.cpus.len() <= cpu_index
                invariant
                    cpu_index <= MAX_NUM_CPUS,
                    self.cpus@.len() <= cpu_index + 1 || self.cpus@ == before,
                    grown(self.cpus@, cpu_index + 1) == grown(before, cpu_index + 1),
                    self.cpu == old(self).cpu,
                    self.num_forks == old(self).num_forks,
                    self.num_context_switches == old(self).num_context_switches,
                    self.procs_running == old(self).procs_running,
                    self.procs_blocked == old(self).procs_blocked,
                    self.boot_time == old(self).boot_time,
                    before == old(self).cpus@,
                decreases cpu_index + 1 - self.cpus@.len(),
            {
                let ghost prev = self.cpus@;
                self.cpus.push(CpuStats::zero());
                assert(grown(self.cpus@, cpu_index + 1) =~= grown(prev, cpu_index + 1));
            }
            assert(grown(self.cpus@, cpu_index + 1) =~= self.cpus@);
            let mut c = self.cpus[cpu_index];
            let r = c.parse(data);
            self.cpus.set(cpu_index, c);
            r
        }
    }
}

/// Reads the value of a scalar line.
fn parse_scalar(data: &[char]) -> (r: Result<u64, ParseError>)
    ensures
        r == scalar(data@),
{
    match parse_u64_slice(data) {
        Some(v) => Ok(v),
        None => Err(ParseError::ParseIntError),
    }
}

impl StatType for ProcStat {
    open spec fn zero_view() -> ProcStatView {
        stat_zero()
    }

    open spec fn text_model(data: Seq<char>) -> Option<ProcStatView> {
        Some(stat_model(data))
    }

    fn new_zero() -> (r: ProcStat) {
        ProcStat::new_zero()
    }

    fn name() -> &'static str {
        PROC_STAT_PATH
    }

    fn max_size() -> u64 {
        MAX_FILE_SIZE
    }

    fn parse_text(data: &str) -> (r: Result<ProcStat, StatsError>) {
        Ok(ProcStat::parse(data))
    }

    fn duplicate(&self) -> (r: ProcStat) {
        let mut cpus: Vec<CpuStats> = Vec::new();
        let mut i: usize = 0;
        while i < self.cpus.len()
            invariant
                i <= self.cpus@.len(),
                cpus@ == self.cpus@.take(i as int),
            decreases self.cpus@.len() - i,
        {
            cpus.push(self.cpus[i]);
            i += 1;
            assert(cpus@ =~= self.cpus@.take(i as int));
        }
        assert(cpus@ =~= self.cpus@);
        ProcStat {
            cpu: self.cpu,
            cpus,
            num_forks: self.num_forks,
            num_context_switches: self.num_context_switches,
            procs_running: self.procs_running,
            procs_blocked: self.procs_blocked,
            boot_time: self.boot_time,
        }
    }
}

} // verus!
