//! Per-block-device I/O counters (`/proc/diskstats`).
//!
//! Each line is `<major> <minor> <name>` followed by 11 to 17 integers. The
//! first 11 have been there since the format began; the discard counters
//! (12 to 14) and the flush counters (16 and 17) default to zero when absent,
//! and the discard time (15) is required once discards are present. A line
//! that cannot be read is skipped; the other lines are still read. A device
//! name that comes twice keeps the values of its last line.
use vstd::prelude::*;

use crate::stats::{StatType, StatsError};

use crate::named::{has_name, insert_named, lemma_insert_named, lemma_insert_named_keys, lemma_insert_named_len, names_distinct, NamedMap};
use crate::text::{lemma_split_len, chars_of, lines, parse_u32, parse_u32_slice, parse_u64, parse_u64_slice,
    split, split_all, split_first, split_once, split_once_slice, string_from_chars, trim_start,
    trim_start_slice};

verus! {

pub const PATH: &'static str = "/proc/diskstats";

/// Largest diskstats file that is read.
pub const MAX_FILE_SIZE: u64 = 10 * 1024 * 1024;

/// The sector counts are always in units of 512 bytes, whatever the sector
/// size of the device.
pub const BYTES_PER_SECTOR: u64 = 512;

/// Number of counters a line may give.
pub const NUM_FIELDS: usize = 17;

/// Number of counters every line must give.
pub const NUM_REQUIRED_FIELDS: usize = 11;

/// Position of the discard time among the counters.
pub const DISCARD_TIME_FIELD: usize = 14;

/// Why one line could not be read.
#[derive(Debug, Clone, Copy, PartialEq, Eq)]
pub enum ParseError {
    /// A counter is not a decimal integer of its width.
    ParseIntError,
    /// A required field is absent.
    MissingField,
}

/// The I/O counters of one block device.
#[derive(Debug, Clone, Copy, PartialEq, Eq)]
pub struct DiskStats {
    /// Reads completed.
    pub num_reads: u64,
    /// Reads merged.
    pub num_reads_merged: u64,
    /// Sectors read, in units of 512 bytes.
    pub num_sectors_read: u64,
    /// Writes completed.
    pub num_writes: u64,
    /// Writes merged.
    pub num_writes_merged: u64,
    /// Sectors written, in units of 512 bytes.
    pub num_sectors_written: u64,
    /// Discards completed.
    pub num_discards: u64,
    /// Discards merged.
    pub num_discards_merged: u64,
    /// Sectors discarded, in units of 512 bytes.
    pub num_sectors_discarded: u64,
    /// Flushes completed.
    pub num_flushes: u64,
    /// Milliseconds spent reading.
    pub ms_reading: u32,
    /// Milliseconds spent writing.
    pub ms_writing: u32,
    /// I/O operations in progress (a gauge).
    pub iops_in_progress: u32,
    /// Milliseconds spent doing I/O.
    pub ms_doing_io: u32,
    /// Weighted milliseconds spent doing I/O.
    pub weighted_ms_doing_io: u32,
    /// Milliseconds spent discarding.
    pub ms_discarding: u32,
    /// Milliseconds spent flushing.
    pub ms_flushing: u32,
}

/// Whether counter `k` of a line is 32 bits wide (the times and the gauge).
pub open spec fn is_u32_field(k: int) -> bool {
    k == 3 || k == 7 || k == 8 || k == 9 || k == 10 || k == 14 || k == 16
}

/// Whether `t` is a valid value for counter `k`.
pub open spec fn field_ok(k: int, t: Seq<char>) -> bool {
    if is_u32_field(k) {
        parse_u32(t) is Some
    } else {
        parse_u64(t) is Some
    }
}

/// Whether counter `k` must be present on a line of `n` counters.
pub open spec fn field_required(k: int, n: int) -> bool {
    k < NUM_REQUIRED_FIELDS || (k == DISCARD_TIME_FIELD && n > NUM_REQUIRED_FIELDS)
}

/// The first failure among counters `k..17` of the tokens `ts`, if any.
pub open spec fn disk_error(ts: Seq<Seq<char>>, k: int) -> Option<ParseError>
    decreases NUM_FIELDS - k,
{
    if k < 0 || k >= NUM_FIELDS {
        None
    } else if k < ts.len() {
        if !field_ok(k, ts[k]) {
            Some(ParseError::ParseIntError)
        } else {
            disk_error(ts, k + 1)
        }
    } else if field_required(k, ts.len() as int) {
        Some(ParseError::MissingField)
    } else {
        disk_error(ts, k + 1)
    }
}

/// Counter `k` of the tokens `ts`: its value when present, else zero.
pub open spec fn token_value(ts: Seq<Seq<char>>, k: int) -> u64 {
    if k < ts.len() {
        match parse_u64(ts[k]) {
            Some(v) => v,
            None => 0,
        }
    } else {
        0
    }
}

/// The counters that the rest of a device line (after its name) gives; they
/// are separated by single spaces.
pub open spec fn disk_model(line: Seq<char>) -> Result<DiskStats, ParseError> {
    let ts = split(line, ' ');
    match disk_error(ts, 0) {
        Some(e) => Err(e),
        None => Ok(
            DiskStats {
                num_reads: token_value(ts, 0),
                num_reads_merged: token_value(ts, 1),
                num_sectors_read: token_value(ts, 2),
                num_writes: token_value(ts, 4),
                num_writes_merged: token_value(ts, 5),
                num_sectors_written: token_value(ts, 6),
                num_discards: token_value(ts, 11),
                num_discards_merged: token_value(ts, 12),
                num_sectors_discarded: token_value(ts, 13),
                num_flushes: token_value(ts, 15),
                ms_reading: token_value(ts, 3) as u32,
                ms_writing: token_value(ts, 7) as u32,
                iops_in_progress: token_value(ts, 8) as u32,
                ms_doing_io: token_value(ts, 9) as u32,
                weighted_ms_doing_io: token_value(ts, 10) as u32,
                ms_discarding: token_value(ts, 14) as u32,
                ms_flushing: token_value(ts, 16) as u32,
            },
        ),
    }
}

/// What one line of diskstats gives: nothing for an empty line, else the
/// device name (the third space-separated field) and its counters.
pub open spec fn disk_line(line: Seq<char>) -> Result<Option<(Seq<char>, DiskStats)>, ParseError> {
    if line.len() == 0 {
        Ok(None)
    } else {
        match split_once(trim_start(line), ' ') {
            None => Err(ParseError::MissingField),
            Some((_major, l1)) => match split_once(trim_start(l1), ' ') {
                None => Err(ParseError::MissingField),
                Some((_minor, l2)) => match split_once(trim_start(l2), ' ') {
                    None => Err(ParseError::MissingField),
                    Some((name, rest)) => match disk_model(rest) {
                        Ok(d) => Ok(Some((name, d))),
                        Err(e) => Err(e),
                    },
                },
            },
        }
    }
}

/// The table after reading the lines `ls` in order; a line that fails is skipped.
pub open spec fn disk_fold(es: Seq<(Seq<char>, DiskStats)>, ls: Seq<Seq<char>>) -> Seq<
    (Seq<char>, DiskStats),
>
    decreases ls.len(),
{
    if ls.len() == 0 {
        es
    } else {
        let next = match disk_line(ls[0]) {
            Ok(Some((name, d))) => insert_named(es, name, d),
            _ => es,
        };
        disk_fold(next, ls.drop_first())
    }
}

/// The device table that a diskstats text describes.
pub open spec fn diskstats_model(data: Seq<char>) -> Seq<(Seq<char>, DiskStats)> {
    disk_fold(Seq::empty(), lines(data))
}

/// All counters zero.
pub open spec fn disk_zero() -> DiskStats {
    DiskStats {
        num_reads: 0,
        num_reads_merged: 0,
        num_sectors_read: 0,
        num_writes: 0,
        num_writes_merged: 0,
        num_sectors_written: 0,
        num_discards: 0,
        num_discards_merged: 0,
        num_sectors_discarded: 0,
        num_flushes: 0,
        ms_reading: 0,
        ms_writing: 0,
        iops_in_progress: 0,
        ms_doing_io: 0,
        weighted_ms_doing_io: 0,
        ms_discarding: 0,
        ms_flushing: 0,
    }
}

impl DiskStats {
    /// All counters zero.
    pub fn zero() -> (r: DiskStats)
        ensures
            r == disk_zero(),
    {
        DiskStats {
            num_reads: 0,
            num_reads_merged: 0,
            num_sectors_read: 0,
            num_writes: 0,
            num_writes_merged: 0,
            num_sectors_written: 0,
            num_discards: 0,
            num_discards_merged: 0,
            num_sectors_discarded: 0,
            num_flushes: 0,
            ms_reading: 0,
            ms_writing: 0,
            iops_in_progress: 0,
            ms_doing_io: 0,
            weighted_ms_doing_io: 0,
            ms_discarding: 0,
            ms_flushing: 0,
        }
    }

    /// Parses the counters of a device line (the part after its name).
    pub fn parse(line: &[char]) -> (r: Result<DiskStats, ParseError>)
        ensures
            r == disk_model(line@),
    {
        let ts = split_first(line, ' ', NUM_FIELDS);
        let ghost all = split(line@, ' ');
        let n = ts.len();
        let mut vals: Vec<u64> = Vec::new();
        let mut k: usize = 0;
        while k < NUM_FIELDS
            invariant
                all == split(line@, ' '),
                n == ts@.len(),
                n <= NUM_FIELDS,
                n == all.len() || n == NUM_FIELDS,
                n <= all.len(),
                forall|j: int| 0 <= j < n ==> (#[trigger] ts@[j])@ == all[j],
                k <= NUM_FIELDS,
                vals@.len() == k,
                disk_error(all, 0) == disk_error(all, k as int),
                forall|j: int| 0 <= j < k ==> vals@[j] == token_value(all, j),
                forall|j: int| 0 <= j < k && j < n && is_u32_field(j) ==> vals@[j] <= u32::MAX,
            decreases NUM_FIELDS - k,
        {
            let wide = !(k == 3 || k == 7 || k == 8 || k == 9 || k == 10 || k == 14 || k == 16);
            if k < n {
                let t = ts[k];
                if wide {
                    match parse_u64_slice(t) {
                        Some(v) => vals.push(v),
                        None => return Err(ParseError::ParseIntError),
                    }
                } else {
                    match parse_u32_slice(t) {
                        Some(v) => vals.push(v as u64),
                        None => return Err(ParseError::ParseIntError),
                    }
                }
            } else {
                if k < NUM_REQUIRED_FIELDS || (k == DISCARD_TIME_FIELD && n > NUM_REQUIRED_FIELDS) {
                    return Err(ParseError::MissingField);
                }
                vals.push(0);
            }
            k += 1;
        }
        let d = DiskStats {
            num_reads: vals[0],
            num_reads_merged: vals[1],
            num_sectors_read: vals[2],
            num_writes: vals[4],
            num_writes_merged: vals[5],
            num_sectors_written: vals[6],
            num_discards: vals[11],
            num_discards_merged: vals[12],
            num_sectors_discarded: vals[13],
            num_flushes: vals[15],
            ms_reading: vals[3] as u32,
            ms_writing: vals[7] as u32,
            iops_in_progress: vals[8] as u32,
            ms_doing_io: vals[9] as u32,
            weighted_ms_doing_io: vals[10] as u32,
            ms_discarding: vals[14] as u32,
            ms_flushing: vals[16] as u32,
        };
        Ok(d)
    }
}

/// The counters of every block device, by device name.
pub struct ProcDiskStats {
    pub disks: NamedMap<DiskStats>,
}

impl ProcDiskStats {
    /// A table with no devices.
    pub fn new_zero() -> (r: ProcDiskStats)
        ensures
            r.disks@ == Seq::<(Seq<char>, DiskStats)>::empty(),
    {
        ProcDiskStats { disks: NamedMap::new() }
    }

    /// Parses a diskstats text. Lines that cannot be read are skipped.
    pub fn parse(data: &str) -> (r: ProcDiskStats)
        ensures
            r.disks@ == diskstats_model(data@),
            r.disks@.len() <= data@.len() + 1,
            names_distinct(r.disks@),
            r.disks@.len() <= lines(data@).len(),
            forall|k: int|
                0 <= k < r.disks@.len() ==> disk_line_adds(lines(data@), (#[trigger] r.disks@[k]).0),
    {
        proof {
            lemma_disk_fold_keys(Seq::empty(), lines(data@));
            lemma_disk_fold_distinct(Seq::empty(), lines(data@));
            lemma_split_len(data@, '\n', 0);
            lemma_disk_fold_len(Seq::empty(), lines(data@));
        }
        let text = chars_of(data);
        let ls = split_all(text.as_slice(), '\n');
        let ghost all = lines(data@);
        let mut d = ProcDiskStats::new_zero();
        let mut i: usize = 0;
        assert(all.skip(0) =~= all);
        while i < ls.len()
            invariant
                all == split(data@, '\n'),
                ls@.len() == all.len(),
                forall|k: int| 0 <= k < ls@.len() ==> (#[trigger] ls@[k])@ == all[k],
                i <= ls@.len(),
                disk_fold(d.disks@, all.skip(i as int)) == diskstats_model(data@),
            decreases ls@.len() - i,
        {
            let line = ls[i];
            let ghost rest = all.skip(i as int);
            assert(rest[0] == line@);
            assert(rest.drop_first() =~= all.skip(i + 1));
            let _ = d.parse_line(line);
            i += 1;
        }
        assert(all.skip(i as int) =~= Seq::<Seq<char>>::empty());
        d
    }

    /// Reads one device line into the table.
    fn parse_line(&mut self, line: &[char]) -> (r: Result<(), ParseError>)
        ensures
            match disk_line(line@) {
                Ok(Some((name, st))) => r is Ok && final(self).disks@ == insert_named(
                    old(self).disks@,
                    name,
                    st,
                ),
                Ok(None) => r is Ok && final(self).disks@ == old(self).disks@,
                Err(e) => r == Err::<(), ParseError>(e) && final(self).disks@ == old(self).disks@,
            },
    {
        if line.len() == 0 {
            // The piece after the final newline.
            return Ok(());
        }
        let line = trim_start_slice(line);
        let (_major, line) = match split_once_slice(line, ' ') {
            Some(p) => p,
            None => return Err(ParseError::MissingField),
        };
        let line = trim_start_slice(line);
        let (_minor, line) = match split_once_slice(line, ' ') {
            Some(p) => p,
            None => return Err(ParseError::MissingField),
        };
        let line = trim_start_slice(line);
        let (name, line) = match split_once_slice(line, ' ') {
            Some(p) => p,
            None => return Err(ParseError::MissingField),
        };
        let st = DiskStats::parse(line)?;
        self.disks.insert(string_from_chars(name), st);
        Ok(())
    }
}

/// Each line adds at most one entry to the table.
pub proof fn lemma_disk_fold_len(es: Seq<(Seq<char>, DiskStats)>, ls: Seq<Seq<char>>)
    ensures
        disk_fold(es, ls).len() <= es.len() + ls.len(),
    decreases ls.len(),
{
    if ls.len() > 0 {
        let next = match disk_line(ls[0]) {
            Ok(Some((name, d))) => insert_named(es, name, d),
            _ => es,
        };
        if let Ok(Some((name, d))) = disk_line(ls[0]) {
            lemma_insert_named_len(es, name, d);
        }
        lemma_disk_fold_len(next, ls.drop_first());
    }
}

/// Reading lines keeps the names of the table distinct.
pub proof fn lemma_disk_fold_distinct(es: Seq<(Seq<char>, DiskStats)>, ls: Seq<Seq<char>>)
    requires
        names_distinct(es),
    ensures
        names_distinct(disk_fold(es, ls)),
    decreases ls.len(),
{
    if ls.len() > 0 {
        let next = match disk_line(ls[0]) {
            Ok(Some((name, d))) => insert_named(es, name, d),
            _ => es,
        };
        if let Ok(Some((name, d))) = disk_line(ls[0]) {
            lemma_insert_named(es, name, d);
        }
        lemma_disk_fold_distinct(next, ls.drop_first());
    }
}

/// The device name that a line adds to the table, if it adds one.
pub open spec fn disk_line_name(line: Seq<char>) -> Option<Seq<char>> {
    match disk_line(line) {
        Ok(Some((name, _))) => Some(name),
        _ => None,
    }
}

/// One of the lines `ls` adds the name `name`.
pub open spec fn disk_line_adds(ls: Seq<Seq<char>>, name: Seq<char>) -> bool {
    exists|i: int| 0 <= i < ls.len() && disk_line_name(ls[i]) == Some(name)
}

/// Every name of the table read from `ls` into `es` was in `es` or is the
/// name that one of the lines adds.
pub proof fn lemma_disk_fold_keys(es: Seq<(Seq<char>, DiskStats)>, ls: Seq<Seq<char>>)
    ensures
        forall|k: int|
            0 <= k < disk_fold(es, ls).len() ==> has_name(es, (#[trigger] disk_fold(es, ls)[k]).0)
                || disk_line_adds(ls, disk_fold(es, ls)[k].0),
    decreases ls.len(),
{
    if ls.len() > 0 {
        let next = match disk_line(ls[0]) {
            Ok(Some((name, d))) => insert_named(es, name, d),
            _ => es,
        };
        if let Ok(Some((name, d))) = disk_line(ls[0]) {
            lemma_insert_named_keys(es, name, d);
        }
        let rest = ls.drop_first();
        lemma_disk_fold_keys(next, rest);
        let r = disk_fold(es, ls);
        assert(r == disk_fold(next, rest));
        assert forall|k: int| 0 <= k < r.len() implies has_name(es, (#[trigger] r[k]).0)
            || disk_line_adds(ls, r[k].0) by {
            let n = r[k].0;
            assert(has_name(next, n) || disk_line_adds(rest, n));
            if disk_line_adds(rest, n) {
                let i = choose|i: int| 0 <= i < rest.len() && disk_line_name(rest[i]) == Some(n);
                assert(ls[i + 1] == rest[i]);
                assert(disk_line_adds(ls, n));
            } else {
                let j = choose|j: int| 0 <= j < next.len() && next[j].0 == n;
                if let Ok(Some((name, d))) = disk_line(ls[0]) {
                    assert(next[j].0 == name || (j < es.len() && es[j].0 == next[j].0));
                    if next[j].0 == name {
                        assert(disk_line_name(ls[0]) == Some(n));
                        assert(disk_line_adds(ls, n));
                    } else {
                        assert(has_name(es, n));
                    }
                } else {
                    assert(has_name(es, n));
                }
            }
        }
    }
}

impl View for ProcDiskStats {
    type V = Seq<(Seq<char>, DiskStats)>;

    open spec fn view(&self) -> Seq<(Seq<char>, DiskStats)> {
        self.disks@
    }
}

impl StatType for ProcDiskStats {
    open spec fn zero_view() -> Seq<(Seq<char>, DiskStats)> {
        Seq::empty()
    }

    open spec fn text_model(data: Seq<char>) -> Option<Seq<(Seq<char>, DiskStats)>> {
        Some(diskstats_model(data))
    }

    fn new_zero() -> (r: ProcDiskStats) {
        ProcDiskStats::new_zero()
    }

    fn name() -> &'static str {
        PATH
    }

    fn max_size() -> u64 {
        MAX_FILE_SIZE
    }

    fn parse_text(data: &str) -> (r: Result<ProcDiskStats, StatsError>) {
        Ok(ProcDiskStats::parse(data))
    }

    fn duplicate(&self) -> (r: ProcDiskStats) {
        ProcDiskStats { disks: self.disks.duplicate() }
    }
}

} // verus!
