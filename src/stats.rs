//! Double-buffered snapshot stores and the registry that owns them.
//!
//! A [`StatsDelta`] holds two snapshots of one counter source, the newer and
//! the older. A refresh overwrites the older one in place and then makes it
//! the newer, so that a consumer always finds a complete (newer, older) pair
//! and the time between them.
use vstd::prelude::*;

use crate::collectors::diskstats::ProcDiskStats;
use crate::collectors::meminfo::MemoryStats;
use crate::collectors::net::NetDevStats;
use crate::collectors::pressure::{CpuPressure, IoPressure, MemoryPressure};
use crate::collectors::procstat::ProcStat;
use crate::read::ReadError;

verus! {

/// Why a snapshot could not be taken.
#[derive(Debug, Clone, PartialEq, Eq)]
pub enum StatsError {
    /// The counter file could not be read.
    IoError(ReadError),
    /// The counter file was read but does not have the expected shape.
    ParseError(String),
}

/// A snapshot type of one counter source.
pub trait StatType: View + Sized {
    /// What a snapshot holds before anything was read.
    spec fn zero_view() -> Self::V;

    /// What the text of the counter file describes, or `None` when the text
    /// does not have the required shape.
    spec fn text_model(data: Seq<char>) -> Option<Self::V>;

    /// A snapshot with nothing read.
    fn new_zero() -> (r: Self)
        ensures
            r@ == Self::zero_view(),
    ;

    /// The counter file that the snapshot is read from.
    fn name() -> &'static str;

    /// The largest size of that file, in bytes, that is read.
    fn max_size() -> u64;

    /// Parses the text of the counter file.
    fn parse_text(data: &str) -> (r: Result<Self, StatsError>)
        ensures
            match Self::text_model(data@) {
                Some(v) => r matches Ok(s) && s@ == v,
                None => r matches Err(StatsError::ParseError(_)),
            },
    ;

    /// A copy of the snapshot.
    fn duplicate(&self) -> (r: Self)
        ensures
            r@ == self@,
    ;
}

/// A parse depends on the text alone: two parses of equal texts describe
/// equal snapshots, whatever was parsed before or in between.
pub proof fn lemma_parse_deterministic<T: StatType>(a: Seq<char>, b: Seq<char>)
    requires
        a == b,
    ensures
        T::text_model(a) == T::text_model(b),
{
}

/// `now - then`, or zero when `now` is earlier.
pub open spec fn elapsed_between(then: u64, now: u64) -> u64 {
    if now >= then {
        (now - then) as u64
    } else {
        0
    }
}

/// The two most recent snapshots of one counter source. Times are in
/// nanoseconds on a monotonic clock chosen by the caller.
pub struct StatsDelta<T> {
    a: T,
    b: T,
    a_newer: bool,
    timestamp: u64,
    duration: u64,
}

impl<T: StatType> StatsDelta<T> {
    /// The newer snapshot.
    pub closed spec fn newer(&self) -> T {
        if self.a_newer {
            self.a
        } else {
            self.b
        }
    }

    /// The older snapshot.
    pub closed spec fn older(&self) -> T {
        if self.a_newer {
            self.b
        } else {
            self.a
        }
    }

    /// Which of the two buffers holds the newer snapshot.
    pub closed spec fn first_is_newer(&self) -> bool {
        self.a_newer
    }

    /// When the newer snapshot was taken.
    pub closed spec fn last_update(&self) -> u64 {
        self.timestamp
    }

    /// The time between the two snapshots.
    pub closed spec fn elapsed(&self) -> u64 {
        self.duration
    }

    /// `self` is what `prev` becomes when `fresh` is taken at `now`: the
    /// buffer that held the older snapshot now holds `fresh` and is the newer
    /// one, the previous newer snapshot is now the older one.
    pub open spec fn is_refresh_of(&self, prev: Self, fresh: T, now: u64) -> bool {
        &&& self.newer() == fresh
        &&& self.older() == prev.newer()
        &&& self.first_is_newer() != prev.first_is_newer()
        &&& self.last_update() == now
        &&& self.elapsed() == elapsed_between(prev.last_update(), now)
    }

    /// A store seeded by the first read: both snapshots are what it gave, or
    /// zero when it failed, and no time has passed between them.
    pub fn new(first: Result<T, StatsError>, now: u64) -> (r: Self)
        ensures
            r.newer()@ == r.older()@,
            r.newer()@ == match first {
                Ok(s) => s@,
                Err(_) => T::zero_view(),
            },
            r.last_update() == now,
            r.elapsed() == 0,
    {
        // A failed first read is not fatal: the store starts from zero.
        let s = match first {
            Ok(s) => s,
            Err(_) => T::new_zero(),
        };
        StatsDelta { a: s.duplicate(), b: s, a_newer: true, timestamp: now, duration: 0 }
    }

    /// The counter file of this store.
    pub fn name(&self) -> &'static str {
        T::name()
    }

    /// The time between the two snapshots.
    pub fn time_delta(&self) -> (r: u64)
        ensures
            r == self.elapsed(),
    {
        self.duration
    }

    /// The newer and the older snapshot, in that order.
    pub fn get_new_and_old(&self) -> (r: (&T, &T))
        ensures
            *r.0 == self.newer(),
            *r.1 == self.older(),
    {
        if self.a_newer {
            (&self.a, &self.b)
        } else {
            (&self.b, &self.a)
        }
    }

    /// The newer snapshot.
    pub fn get_new(&self) -> (r: &T)
        ensures
            *r == self.newer(),
    {
        if self.a_newer {
            &self.a
        } else {
            &self.b
        }
    }

    /// Takes the result of a new read at `now`. A snapshot replaces the older
    /// one, which then becomes the newer; a failed read leaves the store as it
    /// was and is handed back.
    pub fn update(&mut self, fresh: Result<T, StatsError>, now: u64) -> (r: Result<(), StatsError>)
        ensures
            match fresh {
                Ok(s) => r is Ok && final(self).is_refresh_of(*old(self), s, now),
                Err(e) => r == Err::<(), StatsError>(e) && *final(self) == *old(self),
            },
    {
        let s = fresh?;
        if self.a_newer {
            self.b = s;
        } else {
            self.a = s;
        }
        self.a_newer = !self.a_newer;
        self.duration = if now >= self.timestamp {
            now - self.timestamp
        } else {
            0
        };
        self.timestamp = now;
        Ok(())
    }
}

/// After any run of one or more refreshes, the store holds exactly the last
/// two snapshots taken (or the last one and the previous newer one, after a
/// single refresh), in two distinct buffers that alternate at each refresh.
pub proof fn lemma_refreshes<T: StatType>(ds: Seq<StatsDelta<T>>, fresh: Seq<T>, nows: Seq<u64>)
    requires
        fresh.len() >= 1,
        ds.len() == fresh.len() + 1,
        nows.len() == fresh.len(),
        forall|i: int|
            0 <= i < fresh.len() ==> #[trigger] ds[i + 1].is_refresh_of(ds[i], fresh[i], nows[i]),
    ensures
        ds.last().newer() == fresh.last(),
        ds.last().older() == if fresh.len() >= 2 {
            fresh[fresh.len() - 2]
        } else {
            ds[0].newer()
        },
        ds.last().first_is_newer() == (ds[0].first_is_newer() == (fresh.len() % 2 == 0)),
        ds.last().last_update() == nows.last(),
        ds.last().elapsed() == if fresh.len() >= 2 {
            elapsed_between(nows[nows.len() - 2], nows.last())
        } else {
            elapsed_between(ds[0].last_update(), nows.last())
        },
    decreases fresh.len(),
{
    let n = fresh.len() as int;
    let last = n - 1;
    assert(ds[last + 1].is_refresh_of(ds[last], fresh[last], nows[last]));
    assert(ds.last() == ds[last + 1]);
    if n >= 2 {
        let ds2 = ds.drop_last();
        let f2 = fresh.drop_last();
        let n2 = nows.drop_last();
        assert forall|i: int| 0 <= i < f2.len() implies #[trigger] ds2[i + 1].is_refresh_of(
            ds2[i],
            f2[i],
            n2[i],
        ) by {
            assert(ds[i + 1].is_refresh_of(ds[i], fresh[i], nows[i]));
            assert(ds2[i + 1] == ds[i + 1]);
        }
        lemma_refreshes(ds2, f2, n2);
        assert(ds2.last() == ds[last]);
    }
}

/// Whether `d` is a store just seeded by the first read `first` at `now`.
pub open spec fn is_seeded<T: StatType>(d: StatsDelta<T>, first: Result<T, StatsError>, now: u64) -> bool {
    &&& d.newer()@ == d.older()@
    &&& d.newer()@ == match first {
        Ok(s) => s@,
        Err(_) => T::zero_view(),
    }
    &&& d.last_update() == now
    &&& d.elapsed() == 0
}

/// What a registry slot becomes on a refresh: an active store given a
/// snapshot is refreshed with it; otherwise the slot is unchanged.
pub open spec fn slot_after<T: StatType>(
    before: Option<StatsDelta<T>>,
    reading: Option<Result<T, StatsError>>,
    after: Option<StatsDelta<T>>,
    now: u64,
) -> bool {
    match (before, reading) {
        (Some(d), Some(Ok(s))) => after matches Some(a) && a.is_refresh_of(d, s, now),
        _ => after == before,
    }
}

/// The failure that a refresh of a slot reports: that of a failed read of an
/// active store.
pub open spec fn slot_failure<T: StatType>(
    before: Option<StatsDelta<T>>,
    reading: Option<Result<T, StatsError>>,
) -> Option<StatsError> {
    match (before, reading) {
        (Some(_), Some(Err(e))) => Some(e),
        _ => None,
    }
}

/// The failure of `kind`, as a sequence of zero or one reports.
pub open spec fn failure_seq(kind: StatKind, f: Option<StatsError>) -> Seq<(StatKind, StatsError)> {
    match f {
        Some(e) => seq![(kind, e)],
        None => Seq::empty(),
    }
}

/// The counter sources, in the order in which the registry refreshes them.
#[derive(Debug, Clone, Copy, PartialEq, Eq)]
pub enum StatKind {
    ProcStat,
    DiskStats,
    NetStats,
    MemStats,
    CpuPressure,
    IoPressure,
    MemPressure,
}

/// The fresh reads for one refresh of the registry, one per source; `None`
/// for a source that was not read.
pub struct Readings {
    pub proc_stats: Option<Result<ProcStat, StatsError>>,
    pub disk_stats: Option<Result<ProcDiskStats, StatsError>>,
    pub net_stats: Option<Result<NetDevStats, StatsError>>,
    pub mem_stats: Option<Result<MemoryStats, StatsError>>,
    pub cpu_pressure: Option<Result<CpuPressure, StatsError>>,
    pub io_pressure: Option<Result<IoPressure, StatsError>>,
    pub mem_pressure: Option<Result<MemoryPressure, StatsError>>,
}

impl Readings {
    /// No source read.
    pub fn none() -> (r: Readings)
        ensures
            r.proc_stats is None,
            r.disk_stats is None,
            r.net_stats is None,
            r.mem_stats is None,
            r.cpu_pressure is None,
            r.io_pressure is None,
            r.mem_pressure is None,
    {
        Readings {
            proc_stats: None,
            disk_stats: None,
            net_stats: None,
            mem_stats: None,
            cpu_pressure: None,
            io_pressure: None,
            mem_pressure: None,
        }
    }
}

/// The registry of counter sources. A source's store is created when a
/// consumer first asks for it and is kept for the life of the registry; the
/// registry is the only one that refreshes the stores.
pub struct AllStats {
    proc_stats: Option<StatsDelta<ProcStat>>,
    disk_stats: Option<StatsDelta<ProcDiskStats>>,
    net_stats: Option<StatsDelta<NetDevStats>>,
    mem_stats: Option<StatsDelta<MemoryStats>>,
    cpu_pressure: Option<StatsDelta<CpuPressure>>,
    io_pressure: Option<StatsDelta<IoPressure>>,
    mem_pressure: Option<StatsDelta<MemoryPressure>>,
}

impl AllStats {
    /// The store of the `ProcStat` source, once created.
    pub closed spec fn proc_stats_slot(&self) -> Option<StatsDelta<ProcStat>> {
        self.proc_stats
    }

    /// The store of the `DiskStats` source, once created.
    pub closed spec fn disk_stats_slot(&self) -> Option<StatsDelta<ProcDiskStats>> {
        self.disk_stats
    }

    /// The store of the `NetStats` source, once created.
    pub closed spec fn net_stats_slot(&self) -> Option<StatsDelta<NetDevStats>> {
        self.net_stats
    }

    /// The store of the `MemStats` source, once created.
    pub closed spec fn mem_stats_slot(&self) -> Option<StatsDelta<MemoryStats>> {
        self.mem_stats
    }

    /// The store of the `CpuPressure` source, once created.
    pub closed spec fn cpu_pressure_slot(&self) -> Option<StatsDelta<CpuPressure>> {
        self.cpu_pressure
    }

    /// The store of the `IoPressure` source, once created.
    pub closed spec fn io_pressure_slot(&self) -> Option<StatsDelta<IoPressure>> {
        self.io_pressure
    }

    /// The store of the `MemPressure` source, once created.
    pub closed spec fn mem_pressure_slot(&self) -> Option<StatsDelta<MemoryPressure>> {
        self.mem_pressure
    }

    /// Whether the store of `kind` has been created.
    pub open spec fn active(&self, kind: StatKind) -> bool {
        match kind {
            StatKind::ProcStat => self.proc_stats_slot() is Some,
            StatKind::DiskStats => self.disk_stats_slot() is Some,
            StatKind::NetStats => self.net_stats_slot() is Some,
            StatKind::MemStats => self.mem_stats_slot() is Some,
            StatKind::CpuPressure => self.cpu_pressure_slot() is Some,
            StatKind::IoPressure => self.io_pressure_slot() is Some,
            StatKind::MemPressure => self.mem_pressure_slot() is Some,
        }
    }

    /// A registry with no store.
    pub fn new() -> (r: AllStats)
        ensures
            r.proc_stats_slot() is None,
            r.disk_stats_slot() is None,
            r.net_stats_slot() is None,
            r.mem_stats_slot() is None,
            r.cpu_pressure_slot() is None,
            r.io_pressure_slot() is None,
            r.mem_pressure_slot() is None,
    {
        AllStats {
            proc_stats: None,
            disk_stats: None,
            net_stats: None,
            mem_stats: None,
            cpu_pressure: None,
            io_pressure: None,
            mem_pressure: None,
        }
    }

    /// Whether the store of `kind` has been created.
    pub fn is_active(&self, kind: StatKind) -> (r: bool)
        ensures
            r == self.active(kind),
    {
        match kind {
            StatKind::ProcStat => self.proc_stats.is_some(),
            StatKind::DiskStats => self.disk_stats.is_some(),
            StatKind::NetStats => self.net_stats.is_some(),
            StatKind::MemStats => self.mem_stats.is_some(),
            StatKind::CpuPressure => self.cpu_pressure.is_some(),
            StatKind::IoPressure => self.io_pressure.is_some(),
            StatKind::MemPressure => self.mem_pressure.is_some(),
        }
    }

    /// The store of the `ProcStat` source, created from the first read `first`
    /// at `now` when there is none yet; `first` is not used otherwise.
    pub fn get_proc_stats(&mut self, first: Result<ProcStat, StatsError>, now: u64) -> (r: &StatsDelta<ProcStat>)
        ensures
            final(self).proc_stats_slot() == Some(*r),
            old(self).proc_stats_slot() is Some ==> old(self).proc_stats_slot() == Some(*r),
            old(self).proc_stats_slot() is None ==> is_seeded(*r, first, now),
            final(self).disk_stats_slot() == old(self).disk_stats_slot(),
            final(self).net_stats_slot() == old(self).net_stats_slot(),
            final(self).mem_stats_slot() == old(self).mem_stats_slot(),
            final(self).cpu_pressure_slot() == old(self).cpu_pressure_slot(),
            final(self).io_pressure_slot() == old(self).io_pressure_slot(),
            final(self).mem_pressure_slot() == old(self).mem_pressure_slot(),
    {
        Self::get_stat(&mut self.proc_stats, first, now)
    }

    /// The store of the `ProcStat` source, if created.
    pub fn proc_stats(&self) -> (r: Option<&StatsDelta<ProcStat>>)
        ensures
            match r {
                Some(d) => self.proc_stats_slot() == Some(*d),
                None => self.proc_stats_slot() is None,
            },
    {
        match &self.proc_stats {
            Some(d) => Some(d),
            None => None,
        }
    }

    /// The store of the `DiskStats` source, created from the first read `first`
    /// at `now` when there is none yet; `first` is not used otherwise.
    pub fn get_disk_stats(&mut self, first: Result<ProcDiskStats, StatsError>, now: u64) -> (r: &StatsDelta<ProcDiskStats>)
        ensures
            final(self).disk_stats_slot() == Some(*r),
            old(self).disk_stats_slot() is Some ==> old(self).disk_stats_slot() == Some(*r),
            old(self).disk_stats_slot() is None ==> is_seeded(*r, first, now),
            final(self).proc_stats_slot() == old(self).proc_stats_slot(),
            final(self).net_stats_slot() == old(self).net_stats_slot(),
            final(self).mem_stats_slot() == old(self).mem_stats_slot(),
            final(self).cpu_pressure_slot() == old(self).cpu_pressure_slot(),
            final(self).io_pressure_slot() == old(self).io_pressure_slot(),
            final(self).mem_pressure_slot() == old(self).mem_pressure_slot(),
    {
        Self::get_stat(&mut self.disk_stats, first, now)
    }

    /// The store of the `DiskStats` source, if created.
    pub fn disk_stats(&self) -> (r: Option<&StatsDelta<ProcDiskStats>>)
        ensures
            match r {
                Some(d) => self.disk_stats_slot() == Some(*d),
                None => self.disk_stats_slot() is None,
            },
    {
        match &self.disk_stats {
            Some(d) => Some(d),
            None => None,
        }
    }

    /// The store of the `NetStats` source, created from the first read `first`
    /// at `now` when there is none yet; `first` is not used otherwise.
    pub fn get_net_stats(&mut self, first: Result<NetDevStats, StatsError>, now: u64) -> (r: &StatsDelta<NetDevStats>)
        ensures
            final(self).net_stats_slot() == Some(*r),
            old(self).net_stats_slot() is Some ==> old(self).net_stats_slot() == Some(*r),
            old(self).net_stats_slot() is None ==> is_seeded(*r, first, now),
            final(self).proc_stats_slot() == old(self).proc_stats_slot(),
            final(self).disk_stats_slot() == old(self).disk_stats_slot(),
            final(self).mem_stats_slot() == old(self).mem_stats_slot(),
            final(self).cpu_pressure_slot() == old(self).cpu_pressure_slot(),
            final(self).io_pressure_slot() == old(self).io_pressure_slot(),
            final(self).mem_pressure_slot() == old(self).mem_pressure_slot(),
    {
        Self::get_stat(&mut self.net_stats, first, now)
    }

    /// The store of the `NetStats` source, if created.
    pub fn net_stats(&self) -> (r: Option<&StatsDelta<NetDevStats>>)
        ensures
            match r {
                Some(d) => self.net_stats_slot() == Some(*d),
                None => self.net_stats_slot() is None,
            },
    {
        match &self.net_stats {
            Some(d) => Some(d),
            None => None,
        }
    }

    /// The store of the `MemStats` source, created from the first read `first`
    /// at `now` when there is none yet; `first` is not used otherwise.
    pub fn get_mem_stats(&mut self, first: Result<MemoryStats, StatsError>, now: u64) -> (r: &StatsDelta<MemoryStats>)
        ensures
            final(self).mem_stats_slot() == Some(*r),
            old(self).mem_stats_slot() is Some ==> old(self).mem_stats_slot() == Some(*r),
            old(self).mem_stats_slot() is None ==> is_seeded(*r, first, now),
            final(self).proc_stats_slot() == old(self).proc_stats_slot(),
            final(self).disk_stats_slot() == old(self).disk_stats_slot(),
            final(self).net_stats_slot() == old(self).net_stats_slot(),
            final(self).cpu_pressure_slot() == old(self).cpu_pressure_slot(),
            final(self).io_pressure_slot() == old(self).io_pressure_slot(),
            final(self).mem_pressure_slot() == old(self).mem_pressure_slot(),
    {
        Self::get_stat(&mut self.mem_stats, first, now)
    }

    /// The store of the `MemStats` source, if created.
    pub fn mem_stats(&self) -> (r: Option<&StatsDelta<MemoryStats>>)
        ensures
            match r {
                Some(d) => self.mem_stats_slot() == Some(*d),
                None => self.mem_stats_slot() is None,
            },
    {
        match &self.mem_stats {
            Some(d) => Some(d),
            None => None,
        }
    }

    /// The store of the `CpuPressure` source, created from the first read `first`
    /// at `now` when there is none yet; `first` is not used otherwise.
    pub fn get_cpu_pressure(&mut self, first: Result<CpuPressure, StatsError>, now: u64) -> (r: &StatsDelta<CpuPressure>)
        ensures
            final(self).cpu_pressure_slot() == Some(*r),
            old(self).cpu_pressure_slot() is Some ==> old(self).cpu_pressure_slot() == Some(*r),
            old(self).cpu_pressure_slot() is None ==> is_seeded(*r, first, now),
            final(self).proc_stats_slot() == old(self).proc_stats_slot(),
            final(self).disk_stats_slot() == old(self).disk_stats_slot(),
            final(self).net_stats_slot() == old(self).net_stats_slot(),
            final(self).mem_stats_slot() == old(self).mem_stats_slot(),
            final(self).io_pressure_slot() == old(self).io_pressure_slot(),
            final(self).mem_pressure_slot() == old(self).mem_pressure_slot(),
    {
        Self::get_stat(&mut self.cpu_pressure, first, now)
    }

    /// The store of the `CpuPressure` source, if created.
    pub fn cpu_pressure(&self) -> (r: Option<&StatsDelta<CpuPressure>>)
        ensures
            match r {
                Some(d) => self.cpu_pressure_slot() == Some(*d),
                None => self.cpu_pressure_slot() is None,
            },
    {
        match &self.cpu_pressure {
            Some(d) => Some(d),
            None => None,
        }
    }

    /// The store of the `IoPressure` source, created from the first read `first`
    /// at `now` when there is none yet; `first` is not used otherwise.
    pub fn get_io_pressure(&mut self, first: Result<IoPressure, StatsError>, now: u64) -> (r: &StatsDelta<IoPressure>)
        ensures
            final(self).io_pressure_slot() == Some(*r),
            old(self).io_pressure_slot() is Some ==> old(self).io_pressure_slot() == Some(*r),
            old(self).io_pressure_slot() is None ==> is_seeded(*r, first, now),
            final(self).proc_stats_slot() == old(self).proc_stats_slot(),
            final(self).disk_stats_slot() == old(self).disk_stats_slot(),
            final(self).net_stats_slot() == old(self).net_stats_slot(),
            final(self).mem_stats_slot() == old(self).mem_stats_slot(),
            final(self).cpu_pressure_slot() == old(self).cpu_pressure_slot(),
            final(self).mem_pressure_slot() == old(self).mem_pressure_slot(),
    {
        Self::get_stat(&mut self.io_pressure, first, now)
    }

    /// The store of the `IoPressure` source, if created.
    pub fn io_pressure(&self) -> (r: Option<&StatsDelta<IoPressure>>)
        ensures
            match r {
                Some(d) => self.io_pressure_slot() == Some(*d),
                None => self.io_pressure_slot() is None,
            },
    {
        match &self.io_pressure {
            Some(d) => Some(d),
            None => None,
        }
    }

    /// The store of the `MemPressure` source, created from the first read `first`
    /// at `now` when there is none yet; `first` is not used otherwise.
    pub fn get_mem_pressure(&mut self, first: Result<MemoryPressure, StatsError>, now: u64) -> (r: &StatsDelta<MemoryPressure>)
        ensures
            final(self).mem_pressure_slot() == Some(*r),
            old(self).mem_pressure_slot() is Some ==> old(self).mem_pressure_slot() == Some(*r),
            old(self).mem_pressure_slot() is None ==> is_seeded(*r, first, now),
            final(self).proc_stats_slot() == old(self).proc_stats_slot(),
            final(self).disk_stats_slot() == old(self).disk_stats_slot(),
            final(self).net_stats_slot() == old(self).net_stats_slot(),
            final(self).mem_stats_slot() == old(self).mem_stats_slot(),
            final(self).cpu_pressure_slot() == old(self).cpu_pressure_slot(),
            final(self).io_pressure_slot() == old(self).io_pressure_slot(),
    {
        Self::get_stat(&mut self.mem_pressure, first, now)
    }

    /// The store of the `MemPressure` source, if created.
    pub fn mem_pressure(&self) -> (r: Option<&StatsDelta<MemoryPressure>>)
        ensures
            match r {
                Some(d) => self.mem_pressure_slot() == Some(*d),
                None => self.mem_pressure_slot() is None,
            },
    {
        match &self.mem_pressure {
            Some(d) => Some(d),
            None => None,
        }
    }

    /// Refreshes every created store, in the order of [`StatKind`], with its
    /// reading at `now`. A failed read leaves its store unchanged and does not
    /// stop the others; the failures are returned in the same order.
    #[verifier::rlimit(40)]
    pub fn update(&mut self, now: u64, readings: Readings) -> (r: Vec<(StatKind, StatsError)>)
        ensures
            slot_after(old(self).proc_stats_slot(), readings.proc_stats, final(self).proc_stats_slot(), now),
            slot_after(old(self).disk_stats_slot(), readings.disk_stats, final(self).disk_stats_slot(), now),
            slot_after(old(self).net_stats_slot(), readings.net_stats, final(self).net_stats_slot(), now),
            slot_after(old(self).mem_stats_slot(), readings.mem_stats, final(self).mem_stats_slot(), now),
            slot_after(old(self).cpu_pressure_slot(), readings.cpu_pressure, final(self).cpu_pressure_slot(), now),
            slot_after(old(self).io_pressure_slot(), readings.io_pressure, final(self).io_pressure_slot(), now),
            slot_after(old(self).mem_pressure_slot(), readings.mem_pressure, final(self).mem_pressure_slot(), now),
            r@ == failure_seq(StatKind::ProcStat, slot_failure(old(self).proc_stats_slot(), readings.proc_stats))
                + failure_seq(StatKind::DiskStats, slot_failure(old(self).disk_stats_slot(), readings.disk_stats))
                + failure_seq(StatKind::NetStats, slot_failure(old(self).net_stats_slot(), readings.net_stats))
                + failure_seq(StatKind::MemStats, slot_failure(old(self).mem_stats_slot(), readings.mem_stats))
                + failure_seq(StatKind::CpuPressure, slot_failure(old(self).cpu_pressure_slot(), readings.cpu_pressure))
                + failure_seq(StatKind::IoPressure, slot_failure(old(self).io_pressure_slot(), readings.io_pressure))
                + failure_seq(StatKind::MemPressure, slot_failure(old(self).mem_pressure_slot(), readings.mem_pressure)),
    {
        let mut failures: Vec<(StatKind, StatsError)> = Vec::new();
        let ghost before0 = failures@;
        if let Some(e) = Self::update_stat(&mut self.proc_stats, readings.proc_stats, now) {
            failures.push((StatKind::ProcStat, e));
        }
        assert(failures@ =~= before0 + failure_seq(StatKind::ProcStat, slot_failure(old(self).proc_stats_slot(), readings.proc_stats)));
        let ghost before1 = failures@;
        if let Some(e) = Self::update_stat(&mut self.disk_stats, readings.disk_stats, now) {
            failures.push((StatKind::DiskStats, e));
        }
        assert(failures@ =~= before1 + failure_seq(StatKind::DiskStats, slot_failure(old(self).disk_stats_slot(), readings.disk_stats)));
        let ghost before2 = failures@;
        if let Some(e) = Self::update_stat(&mut self.net_stats, readings.net_stats, now) {
            failures.push((StatKind::NetStats, e));
        }
        assert(failures@ =~= before2 + failure_seq(StatKind::NetStats, slot_failure(old(self).net_stats_slot(), readings.net_stats)));
        let ghost before3 = failures@;
        if let Some(e) = Self::update_stat(&mut self.mem_stats, readings.mem_stats, now) {
            failures.push((StatKind::MemStats, e));
        }
        assert(failures@ =~= before3 + failure_seq(StatKind::MemStats, slot_failure(old(self).mem_stats_slot(), readings.mem_stats)));
        let ghost before4 = failures@;
        if let Some(e) = Self::update_stat(&mut self.cpu_pressure, readings.cpu_pressure, now) {
            failures.push((StatKind::CpuPressure, e));
        }
        assert(failures@ =~= before4 + failure_seq(StatKind::CpuPressure, slot_failure(old(self).cpu_pressure_slot(), readings.cpu_pressure)));
        let ghost before5 = failures@;
        if let Some(e) = Self::update_stat(&mut self.io_pressure, readings.io_pressure, now) {
            failures.push((StatKind::IoPressure, e));
        }
        assert(failures@ =~= before5 + failure_seq(StatKind::IoPressure, slot_failure(old(self).io_pressure_slot(), readings.io_pressure)));
        let ghost before6 = failures@;
        if let Some(e) = Self::update_stat(&mut self.mem_pressure, readings.mem_pressure, now) {
            failures.push((StatKind::MemPressure, e));
        }
        assert(failures@ =~= before6 + failure_seq(StatKind::MemPressure, slot_failure(old(self).mem_pressure_slot(), readings.mem_pressure)));
        failures
    }

    fn get_stat<T: StatType>(stat: &mut Option<StatsDelta<T>>, first: Result<T, StatsError>, now: u64) -> (r: &StatsDelta<T>)
        ensures
            *final(stat) == Some(*r),
            (*old(stat)) is Some ==> *old(stat) == Some(*r),
            (*old(stat)) is None ==> is_seeded(*r, first, now),
    {
        if stat.is_none() {
            *stat = Some(StatsDelta::new(first, now));
        }
        match stat {
            Some(d) => d,
            None => vstd::pervasive::unreached(),
        }
    }

    fn update_stat<T: StatType>(
        stat: &mut Option<StatsDelta<T>>,
        reading: Option<Result<T, StatsError>>,
        now: u64,
    ) -> (r: Option<StatsError>)
        ensures
            slot_after(*old(stat), reading, *final(stat), now),
            r == slot_failure(*old(stat), reading),
    {
        match stat {
            Some(d) => match reading {
                Some(fresh) => match d.update(fresh, now) {
                    Ok(()) => None,
                    Err(e) => Some(e),
                },
                None => None,
            },
            None => None,
        }
    }
}

} // verus!
