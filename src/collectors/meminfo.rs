//! The memory summary (`/proc/meminfo`).
//!
//! Each line is `Key:   <n> kB`. The keys below are read; other lines are
//! ignored. A known key whose value is not a number followed by ` kB` is an
//! error for that line only: the other lines are still read.
use vstd::prelude::*;

use crate::stats::{StatType, StatsError};

use crate::text::{chars_of, lines, parse_u64, parse_u64_slice, split, split_all, strip_prefix,
    strip_prefix_slice, strip_suffix, strip_suffix_slice, trim_start, trim_start_slice};

verus! {

pub const PATH: &'static str = "/proc/meminfo";

/// Largest meminfo file that is read.
pub const MAX_FILE_SIZE: u64 = 10 * 1024 * 1024;

/// Number of keys that are read.
pub const NUM_KEYS: usize = 31;

/// Why one line could not be read.
#[derive(Debug, Clone, Copy, PartialEq, Eq)]
pub enum ParseError {
    /// The value is not a decimal integer that fits in 64 bits.
    ParseIntError,
    /// The value is not followed by ` kB`.
    UnexpectedData,
}

/// The memory summary; every value is in kilobytes.
#[derive(Clone, Copy, Debug, PartialEq, Eq)]
pub struct MemoryStats {
    pub mem_total: u64,
    pub mem_free: u64,
    pub mem_available: u64,
    pub buffers: u64,
    pub cached: u64,
    pub swap_cached: u64,
    pub active: u64,
    pub inactive: u64,
    pub unevictable: u64,
    pub mlocked: u64,
    pub high_total: u64,
    pub high_free: u64,
    pub low_total: u64,
    pub low_free: u64,
    pub swap_total: u64,
    pub swap_free: u64,
    pub dirty: u64,
    pub writeback: u64,
    pub anon_pages: u64,
    pub mapped: u64,
    pub shmem: u64,
    pub kreclaimable: u64,
    pub slab: u64,
    pub sreclaimable: u64,
    pub sunreclaimable: u64,
    pub kernel_stack: u64,
    pub page_tables: u64,
    pub commit_limit: u64,
    pub committed_as: u64,
    pub vmalloc_total: u64,
    pub vmalloc_used: u64,
}

/// The summary with every value zero.
pub open spec fn mem_zero() -> MemoryStats {
    MemoryStats {
        mem_total: 0,
        mem_free: 0,
        mem_available: 0,
        buffers: 0,
        cached: 0,
        swap_cached: 0,
        active: 0,
        inactive: 0,
        unevictable: 0,
        mlocked: 0,
        high_total: 0,
        high_free: 0,
        low_total: 0,
        low_free: 0,
        swap_total: 0,
        swap_free: 0,
        dirty: 0,
        writeback: 0,
        anon_pages: 0,
        mapped: 0,
        shmem: 0,
        kreclaimable: 0,
        slab: 0,
        sreclaimable: 0,
        sunreclaimable: 0,
        kernel_stack: 0,
        page_tables: 0,
        commit_limit: 0,
        committed_as: 0,
        vmalloc_total: 0,
        vmalloc_used: 0,
    }
}

/// The key of field `k`, in the order in which keys are tried.
pub open spec fn mem_key(k: int) -> Seq<char> {
    if k == 0 {
        "MemTotal:"@
    } else if k == 1 {
        "MemFree:"@
    } else if k == 2 {
        "MemAvailable:"@
    } else if k == 3 {
        "Buffers:"@
    } else if k == 4 {
        "Cached:"@
    } else if k == 5 {
        "SwapCached:"@
    } else if k == 6 {
        "Active:"@
    } else if k == 7 {
        "Inactive:"@
    } else if k == 8 {
        "Unevictable:"@
    } else if k == 9 {
        "Mlocked:"@
    } else if k == 10 {
        "HighTotal:"@
    } else if k == 11 {
        "HighFree:"@
    } else if k == 12 {
        "LowTotal:"@
    } else if k == 13 {
        "LowFree:"@
    } else if k == 14 {
        "SwapTotal:"@
    } else if k == 15 {
        "SwapFree:"@
    } else if k == 16 {
        "Dirty:"@
    } else if k == 17 {
        "Writeback:"@
    } else if k == 18 {
        "AnonPages:"@
    } else if k == 19 {
        "Mapped:"@
    } else if k == 20 {
        "Shmem:"@
    } else if k == 21 {
        "KReclaimable:"@
    } else if k == 22 {
        "Slab:"@
    } else if k == 23 {
        "SReclaimable:"@
    } else if k == 24 {
        "SUnreclaim:"@
    } else if k == 25 {
        "KernelStack:"@
    } else if k == 26 {
        "PageTables:"@
    } else if k == 27 {
        "CommitLimit:"@
    } else if k == 28 {
        "Committed_AS:"@
    } else if k == 29 {
        "VmallocTotal:"@
    } else {
        "VmallocUsed:"@
    }
}

/// The summary `m` with field `k` set to `v`.
pub open spec fn with_mem_field(m: MemoryStats, k: int, v: u64) -> MemoryStats {
    if k == 0 {
        MemoryStats { mem_total: v, ..m }
    } else if k == 1 {
        MemoryStats { mem_free: v, ..m }
    } else if k == 2 {
        MemoryStats { mem_available: v, ..m }
    } else if k == 3 {
        MemoryStats { buffers: v, ..m }
    } else if k == 4 {
        MemoryStats { cached: v, ..m }
    } else if k == 5 {
        MemoryStats { swap_cached: v, ..m }
    } else if k == 6 {
        MemoryStats { active: v, ..m }
    } else if k == 7 {
        MemoryStats { inactive: v, ..m }
    } else if k == 8 {
        MemoryStats { unevictable: v, ..m }
    } else if k == 9 {
        MemoryStats { mlocked: v, ..m }
    } else if k == 10 {
        MemoryStats { high_total: v, ..m }
    } else if k == 11 {
        MemoryStats { high_free: v, ..m }
    } else if k == 12 {
        MemoryStats { low_total: v, ..m }
    } else if k == 13 {
        MemoryStats { low_free: v, ..m }
    } else if k == 14 {
        MemoryStats { swap_total: v, ..m }
    } else if k == 15 {
        MemoryStats { swap_free: v, ..m }
    } else if k == 16 {
        MemoryStats { dirty: v, ..m }
    } else if k == 17 {
        MemoryStats { writeback: v, ..m }
    } else if k == 18 {
        MemoryStats { anon_pages: v, ..m }
    } else if k == 19 {
        MemoryStats { mapped: v, ..m }
    } else if k == 20 {
        MemoryStats { shmem: v, ..m }
    } else if k == 21 {
        MemoryStats { kreclaimable: v, ..m }
    } else if k == 22 {
        MemoryStats { slab: v, ..m }
    } else if k == 23 {
        MemoryStats { sreclaimable: v, ..m }
    } else if k == 24 {
        MemoryStats { sunreclaimable: v, ..m }
    } else if k == 25 {
        MemoryStats { kernel_stack: v, ..m }
    } else if k == 26 {
        MemoryStats { page_tables: v, ..m }
    } else if k == 27 {
        MemoryStats { commit_limit: v, ..m }
    } else if k == 28 {
        MemoryStats { committed_as: v, ..m }
    } else if k == 29 {
        MemoryStats { vmalloc_total: v, ..m }
    } else if k == 30 {
        MemoryStats { vmalloc_used: v, ..m }
    } else {
        m
    }
}

/// The value of a line for the key `prefix`: `None` when the line does not
/// start with it, else the number between the key (and any whitespace) and
/// the ` kB` that ends the line.
pub open spec fn kb_value(line: Seq<char>, prefix: Seq<char>) -> Option<Result<u64, ParseError>> {
    match strip_prefix(line, prefix) {
        None => None,
        Some(rest) => Some(
            match strip_suffix(trim_start(rest), " kB"@) {
                Some(num) => match parse_u64(num) {
                    Some(v) => Ok(v),
                    None => Err(ParseError::ParseIntError),
                },
                None => Err(ParseError::UnexpectedData),
            },
        ),
    }
}

/// The first key, from `k` on, that `line` starts with; `NUM_KEYS` if none.
pub open spec fn mem_key_index(line: Seq<char>, k: int) -> int
    decreases NUM_KEYS - k,
{
    if k < 0 || k >= NUM_KEYS {
        NUM_KEYS as int
    } else if mem_key(k).is_prefix_of(line) {
        k
    } else {
        mem_key_index(line, k + 1)
    }
}

/// What one line does to the summary, and whether it was read without error.
pub open spec fn mem_line(m: MemoryStats, line: Seq<char>) -> (MemoryStats, Result<(), ParseError>) {
    let k = mem_key_index(line, 0);
    if k >= NUM_KEYS {
        (m, Ok(()))
    } else {
        match kb_value(line, mem_key(k)) {
            Some(Ok(v)) => (with_mem_field(m, k, v), Ok(())),
            Some(Err(e)) => (m, Err(e)),
            None => (m, Ok(())),
        }
    }
}

/// The summary after reading the lines `ls` in order.
pub open spec fn mem_fold(m: MemoryStats, ls: Seq<Seq<char>>) -> MemoryStats
    decreases ls.len(),
{
    if ls.len() == 0 {
        m
    } else {
        mem_fold(mem_line(m, ls[0]).0, ls.drop_first())
    }
}

/// The first line of `ls` that cannot be read, numbered from `i`, with its
/// failure, when the lines are read into `m` in order.
pub open spec fn mem_first_error(m: MemoryStats, ls: Seq<Seq<char>>, i: int) -> Option<(int, ParseError)>
    decreases ls.len(),
{
    if ls.len() == 0 {
        None
    } else {
        match mem_line(m, ls[0]).1 {
            Err(e) => Some((i, e)),
            Ok(_) => mem_first_error(mem_line(m, ls[0]).0, ls.drop_first(), i + 1),
        }
    }
}

/// The summary that a meminfo text describes.
pub open spec fn mem_model(data: Seq<char>) -> MemoryStats {
    mem_fold(mem_zero(), lines(data))
}

/// The keys, in order.
fn mem_keys() -> (r: Vec<Vec<char>>)
    ensures
        r@.len() == NUM_KEYS,
        forall|k: int| 0 <= k < NUM_KEYS ==> (#[trigger] r@[k])@ == mem_key(k),
{
    let mut keys: Vec<Vec<char>> = Vec::new();
    keys.push(chars_of("MemTotal:"));
    keys.push(chars_of("MemFree:"));
    keys.push(chars_of("MemAvailable:"));
    keys.push(chars_of("Buffers:"));
    keys.push(chars_of("Cached:"));
    keys.push(chars_of("SwapCached:"));
    keys.push(chars_of("Active:"));
    keys.push(chars_of("Inactive:"));
    keys.push(chars_of("Unevictable:"));
    keys.push(chars_of("Mlocked:"));
    keys.push(chars_of("HighTotal:"));
    keys.push(chars_of("HighFree:"));
    keys.push(chars_of("LowTotal:"));
    keys.push(chars_of("LowFree:"));
    keys.push(chars_of("SwapTotal:"));
    keys.push(chars_of("SwapFree:"));
    keys.push(chars_of("Dirty:"));
    keys.push(chars_of("Writeback:"));
    keys.push(chars_of("AnonPages:"));
    keys.push(chars_of("Mapped:"));
    keys.push(chars_of("Shmem:"));
    keys.push(chars_of("KReclaimable:"));
    keys.push(chars_of("Slab:"));
    keys.push(chars_of("SReclaimable:"));
    keys.push(chars_of("SUnreclaim:"));
    keys.push(chars_of("KernelStack:"));
    keys.push(chars_of("PageTables:"));
    keys.push(chars_of("CommitLimit:"));
    keys.push(chars_of("Committed_AS:"));
    keys.push(chars_of("VmallocTotal:"));
    keys.push(chars_of("VmallocUsed:"));
    assert forall|k: int| 0 <= k < NUM_KEYS implies (#[trigger] keys@[k])@ == mem_key(k) by {
    }
    keys
}

impl Default for MemoryStats {
    fn default() -> (r: MemoryStats)
        ensures
            r == mem_zero(),
    {
        MemoryStats {
            mem_total: 0,
            mem_free: 0,
            mem_available: 0,
            buffers: 0,
            cached: 0,
            swap_cached: 0,
            active: 0,
            inactive: 0,
            unevictable: 0,
            mlocked: 0,
            high_total: 0,
            high_free: 0,
            low_total: 0,
            low_free: 0,
            swap_total: 0,
            swap_free: 0,
            dirty: 0,
            writeback: 0,
            anon_pages: 0,
            mapped: 0,
            shmem: 0,
            kreclaimable: 0,
            slab: 0,
            sreclaimable: 0,
            sunreclaimable: 0,
            kernel_stack: 0,
            page_tables: 0,
            commit_limit: 0,
            committed_as: 0,
            vmalloc_total: 0,
            vmalloc_used: 0,
        }
    }
}

impl MemoryStats {
    /// Parses a meminfo text. Lines that cannot be read are skipped.
    pub fn parse(data: &str) -> (r: Self)
        ensures
            r == mem_model(data@),
    {
        Self::parse_with_first_error(data).0
    }

    /// Parses a meminfo text as [`MemoryStats::parse`] does, and also returns
    /// the first line that could not be read (numbered from 0) with its
    /// failure, so that the caller can report it.
    pub fn parse_with_first_error(data: &str) -> (r: (Self, Option<(usize, ParseError)>))
        ensures
            r.0 == mem_model(data@),
            match r.1 {
                Some((i, e)) => mem_first_error(mem_zero(), lines(data@), 0) == Some((i as int, e)),
                None => mem_first_error(mem_zero(), lines(data@), 0) is None,
            },
    {
        let text = chars_of(data);
        let keys = mem_keys();
        let ls = split_all(text.as_slice(), '\n');
        let ghost all = lines(data@);
        let mut m = MemoryStats::default();
        let mut first: Option<(usize, ParseError)> = None;
        let mut i: usize = 0;
        assert(all.skip(0) =~= all);
        while i < ls.len()
            invariant
                all == split(data@, '\n'),
                ls@.len() == all.len(),
                forall|k: int| 0 <= k < ls@.len() ==> (#[trigger] ls@[k])@ == all[k],
                keys@.len() == NUM_KEYS,
                forall|k: int| 0 <= k < NUM_KEYS ==> (#[trigger] keys@[k])@ == mem_key(k),
                i <= ls@.len(),
                mem_fold(m, all.skip(i as int)) == mem_model(data@),
                match first {
                    Some((j, e)) => mem_first_error(mem_zero(), all, 0) == Some((j as int, e)),
                    None => mem_first_error(mem_zero(), all, 0) == mem_first_error(
                        m,
                        all.skip(i as int),
                        i as int,
                    ),
                },
            decreases ls@.len() - i,
        {
            let line = ls[i];
            let ghost rest = all.skip(i as int);
            assert(rest[0] == line@);
            assert(rest.drop_first() =~= all.skip(i + 1));
            // A line that cannot be read leaves the summary as it was.
            match m.parse_line(line, &keys) {
                Ok(()) => {},
                Err(e) => {
                    if first.is_none() {
                        first = Some((i, e));
                    }
                },
            }
            i += 1;
        }
        assert(all.skip(i as int) =~= Seq::<Seq<char>>::empty());
        (m, first)
    }

    /// Reads one line into the summary.
    fn parse_line(&mut self, line: &[char], keys: &Vec<Vec<char>>) -> (r: Result<(), ParseError>)
        requires
            keys@.len() == NUM_KEYS,
            forall|k: int| 0 <= k < NUM_KEYS ==> (#[trigger] keys@[k])@ == mem_key(k),
        ensures
            (*final(self), r) == mem_line(*old(self), line@),
    {
        let mut k: usize = 0;
        while k < NUM_KEYS
            invariant
                keys@.len() == NUM_KEYS,
                forall|j: int| 0 <= j < NUM_KEYS ==> (#[trigger] keys@[j])@ == mem_key(j),
                k <= NUM_KEYS,
                mem_key_index(line@, 0) == mem_key_index(line@, k as int),
                *self == *old(self),
            decreases NUM_KEYS - k,
        {
            match Self::try_parse_kb(line, keys[k].as_slice()) {
                Some(Ok(v)) => {
                    self.set_field(k, v);
                    return Ok(());
                },
                Some(Err(e)) => {
                    return Err(e);
                },
                None => {},
            }
            k += 1;
        }
        Ok(())
    }

    /// Reads the value of `line` for the key `prefix`, if it has that key.
    fn try_parse_kb(line: &[char], prefix: &[char]) -> (r: Option<Result<u64, ParseError>>)
        ensures
            r == kb_value(line@, prefix@),
    {
        match strip_prefix_slice(line, prefix) {
            Some(data) => {
                let data = trim_start_slice(data);
                let kb = chars_of(" kB");
                match strip_suffix_slice(data, kb.as_slice()) {
                    Some(num) => match parse_u64_slice(num) {
                        Some(v) => Some(Ok(v)),
                        None => Some(Err(ParseError::ParseIntError)),
                    },
                    None => Some(Err(ParseError::UnexpectedData)),
                }
            },
            None => None,
        }
    }

    fn set_field(&mut self, k: usize, v: u64)
        requires
            k < NUM_KEYS,
        ensures
            *final(self) == with_mem_field(*old(self), k as int, v),
    {
        if k == 0 {
            self.mem_total = v;
        } else if k == 1 {
            self.mem_free = v;
        } else if k == 2 {
            self.mem_available = v;
        } else if k == 3 {
            self.buffers = v;
        } else if k == 4 {
            self.cached = v;
        } else if k == 5 {
            self.swap_cached = v;
        } else if k == 6 {
            self.active = v;
        } else if k == 7 {
            self.inactive = v;
        } else if k == 8 {
            self.unevictable = v;
        } else if k == 9 {
            self.mlocked = v;
        } else if k == 10 {
            self.high_total = v;
        } else if k == 11 {
            self.high_free = v;
        } else if k == 12 {
            self.low_total = v;
        } else if k == 13 {
            self.low_free = v;
        } else if k == 14 {
            self.swap_total = v;
        } else if k == 15 {
            self.swap_free = v;
        } else if k == 16 {
            self.dirty = v;
        } else if k == 17 {
            self.writeback = v;
        } else if k == 18 {
            self.anon_pages = v;
        } else if k == 19 {
            self.mapped = v;
        } else if k == 20 {
            self.shmem = v;
        } else if k == 21 {
            self.kreclaimable = v;
        } else if k == 22 {
            self.slab = v;
        } else if k == 23 {
            self.sreclaimable = v;
        } else if k == 24 {
            self.sunreclaimable = v;
        } else if k == 25 {
            self.kernel_stack = v;
        } else if k == 26 {
            self.page_tables = v;
        } else if k == 27 {
            self.commit_limit = v;
        } else if k == 28 {
            self.committed_as = v;
        } else if k == 29 {
            self.vmalloc_total = v;
        } else {
            self.vmalloc_used = v;
        }
    }
}

impl View for MemoryStats {
    type V = MemoryStats;

    open spec fn view(&self) -> MemoryStats {
        *self
    }
}

impl StatType for MemoryStats {
    open spec fn zero_view() -> MemoryStats {
        mem_zero()
    }

    open spec fn text_model(data: Seq<char>) -> Option<MemoryStats> {
        Some(mem_model(data))
    }

    fn new_zero() -> (r: MemoryStats) {
        MemoryStats::default()
    }

    fn name() -> &'static str {
        PATH
    }

    fn max_size() -> u64 {
        MAX_FILE_SIZE
    }

    fn parse_text(data: &str) -> (r: Result<MemoryStats, StatsError>) {
        Ok(MemoryStats::parse(data))
    }

    fn duplicate(&self) -> (r: MemoryStats) {
        *self
    }
}

} // verus!
