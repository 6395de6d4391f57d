//! Pressure-stall counters (`/proc/pressure/{cpu,io,memory}`).
//!
//! Each file has a `some` line and a `full` line; the cumulative stall time in
//! microseconds is the `total=<n>` token of each. Unlike the other counter
//! files, a line that lacks a readable `total=` fails the whole read.
use vstd::prelude::*;

use crate::stats::{StatType, StatsError};
use crate::text::{chars_of, lemma_words_len, lines, parse_u64, parse_u64_slice, split, split_all,
    strip_prefix, strip_prefix_slice, words, words_first};

verus! {

pub const CPU_PATH: &'static str = "/proc/pressure/cpu";

pub const IO_PATH: &'static str = "/proc/pressure/io";

pub const MEMORY_PATH: &'static str = "/proc/pressure/memory";

/// Largest pressure file that is read.
pub const MAX_PRESSURE_FILE_SIZE: u64 = 4096;

/// Why a pressure line could not be read.
pub enum PsiFailure {
    /// The line has no `total=` token.
    NoTotal,
    /// The value of the `total=` token is not a decimal integer that fits in 64 bits.
    BadInteger,
}

/// The message of the error that a failure is reported with.
pub open spec fn psi_message(f: PsiFailure) -> Seq<char> {
    match f {
        PsiFailure::NoTotal => "unparseable Linux PSI line"@,
        PsiFailure::BadInteger => "invalid integer in Linux PSI file"@,
    }
}

/// Position of the first word of `ws`, from `i` on, that starts with
/// `total=`, or `ws.len()` when there is none.
pub open spec fn total_word(ws: Seq<Seq<char>>, i: int) -> int
    decreases ws.len() - i,
{
    if i < 0 || i >= ws.len() {
        ws.len() as int
    } else if strip_prefix(ws[i], "total="@) is Some {
        i
    } else {
        total_word(ws, i + 1)
    }
}

/// The value of a word if it is a `total=<n>` token.
pub open spec fn total_value(w: Seq<char>) -> Option<u64> {
    match strip_prefix(w, "total="@) {
        Some(rest) => parse_u64(rest),
        None => None,
    }
}

/// Position of the first `total=<n>` token of `ws` from `i` on, or
/// `ws.len()` when there is none.
pub open spec fn total_token(ws: Seq<Seq<char>>, i: int) -> int
    decreases ws.len() - i,
{
    if i < 0 || i >= ws.len() {
        ws.len() as int
    } else if total_value(ws[i]) is Some {
        i
    } else {
        total_token(ws, i + 1)
    }
}

/// The value of the `total=<n>` token of a pressure line: the first of the
/// line's whitespace-separated words that is `total=` followed by a decimal
/// integer. A line whose `total=` words all lack a valid integer fails with
/// `BadInteger`; a line without any fails with `NoTotal`.
pub open spec fn psi_total(line: Seq<char>) -> Result<u64, PsiFailure> {
    let ws = words(line);
    let k = total_token(ws, 0);
    if k < ws.len() {
        Ok(total_value(ws[k])->Some_0)
    } else if total_word(ws, 0) < ws.len() {
        Err(PsiFailure::BadInteger)
    } else {
        Err(PsiFailure::NoTotal)
    }
}

/// Reads the lines `ls` in order into the pair (some, full): a line that
/// starts with `some ` or `full ` sets that member, other lines are ignored,
/// and the first such line without a readable total fails the whole.
pub open spec fn psi_fold(acc: (u64, u64), ls: Seq<Seq<char>>) -> Result<(u64, u64), PsiFailure>
    decreases ls.len(),
{
    if ls.len() == 0 {
        Ok(acc)
    } else {
        let rest = ls.drop_first();
        match strip_prefix(ls[0], "some "@) {
            Some(d) => match psi_total(d) {
                Ok(v) => psi_fold((v, acc.1), rest),
                Err(f) => Err(f),
            },
            None => match strip_prefix(ls[0], "full "@) {
                Some(d) => match psi_total(d) {
                    Ok(v) => psi_fold((acc.0, v), rest),
                    Err(f) => Err(f),
                },
                None => psi_fold(acc, rest),
            },
        }
    }
}

/// The (some, full) totals of a pressure file, both zero when absent, or the
/// failure of its first unreadable `some` or `full` line.
pub open spec fn psi_totals(data: Seq<char>) -> Result<(u64, u64), PsiFailure> {
    psi_fold((0, 0), lines(data))
}

/// `r` is the error that the failure `f` is reported with.
pub open spec fn is_psi_error<T>(r: Result<T, StatsError>, f: PsiFailure) -> bool {
    r matches Err(StatsError::ParseError(m)) && m@ == psi_message(f)
}

/// CPU pressure: cumulative microseconds in which some (`some`) or all
/// (`full`) runnable tasks were stalled.
#[derive(Debug, Clone, Copy, PartialEq, Eq)]
pub struct CpuPressure {
    pub some: u64,
    pub full: u64,
}

/// I/O pressure, as [`CpuPressure`].
#[derive(Debug, Clone, Copy, PartialEq, Eq)]
pub struct IoPressure {
    pub some: u64,
    pub full: u64,
}

/// Memory pressure, as [`CpuPressure`].
#[derive(Debug, Clone, Copy, PartialEq, Eq)]
pub struct MemoryPressure {
    pub some: u64,
    pub full: u64,
}

impl CpuPressure {
    pub fn parse(data: &str) -> (r: Result<Self, StatsError>)
        ensures
            match psi_totals(data@) {
                Ok((some, full)) => r == Ok::<Self, StatsError>(CpuPressure { some, full }),
                Err(f) => is_psi_error(r, f),
            },
    {
        let (some, full) = parse_pressure_data(data)?;
        Ok(CpuPressure { some, full })
    }
}

impl IoPressure {
    pub fn parse(data: &str) -> (r: Result<Self, StatsError>)
        ensures
            match psi_totals(data@) {
                Ok((some, full)) => r == Ok::<Self, StatsError>(IoPressure { some, full }),
                Err(f) => is_psi_error(r, f),
            },
    {
        let (some, full) = parse_pressure_data(data)?;
        Ok(IoPressure { some, full })
    }
}

impl MemoryPressure {
    pub fn parse(data: &str) -> (r: Result<Self, StatsError>)
        ensures
            match psi_totals(data@) {
                Ok((some, full)) => r == Ok::<Self, StatsError>(MemoryPressure { some, full }),
                Err(f) => is_psi_error(r, f),
            },
    {
        let (some, full) = parse_pressure_data(data)?;
        Ok(MemoryPressure { some, full })
    }
}

/// Reads the (some, full) totals of a pressure file.
pub fn parse_pressure_data(data: &str) -> (r: Result<(u64, u64), StatsError>)
    ensures
        match psi_totals(data@) {
            Ok(p) => r == Ok::<(u64, u64), StatsError>(p),
            Err(f) => is_psi_error(r, f),
        },
{
    let text = chars_of(data);
    let some_prefix = chars_of("some ");
    let full_prefix = chars_of("full ");
    let ls = split_all(text.as_slice(), '\n');
    let ghost all = lines(data@);
    let mut some: u64 = 0;
    let mut full: u64 = 0;
    let mut i: usize = 0;
    assert(all.skip(0) =~= all);
    while i < ls.len()
        invariant
            all == split(data@, '\n'),
            ls@.len() == all.len(),
            forall|k: int| 0 <= k < ls@.len() ==> (#[trigger] ls@[k])@ == all[k],
            some_prefix@ == "some "@,
            full_prefix@ == "full "@,
            i <= ls@.len(),
            psi_fold((some, full), all.skip(i as int)) == psi_totals(data@),
        decreases ls@.len() - i,
    {
        let line = ls[i];
        let ghost rest = all.skip(i as int);
        assert(rest[0] == line@);
        assert(rest.drop_first() =~= all.skip(i + 1));
        match strip_prefix_slice(line, some_prefix.as_slice()) {
            Some(d) => {
                some = parse_pressure_line(d)?;
            },
            None => match strip_prefix_slice(line, full_prefix.as_slice()) {
                Some(d) => {
                    full = parse_pressure_line(d)?;
                },
                None => {},
            },
        }
        i += 1;
    }
    assert(all.skip(i as int) =~= Seq::<Seq<char>>::empty());
    Ok((some, full))
}

/// Reads the `total=` token of one pressure line (after its `some ` or `full `).
pub fn parse_pressure_line(data: &[char]) -> (r: Result<u64, StatsError>)
    ensures
        match psi_total(data@) {
            Ok(v) => r == Ok::<u64, StatsError>(v),
            Err(f) => is_psi_error(r, f),
        },
{
    let total = chars_of("total=");
    proof {
        lemma_words_len(data@, 0);
    }
    let ws = words_first(data, data.len());
    let ghost all = words(data@);
    let mut seen = false;
    let mut k: usize = 0;
    while k < ws.len()
        invariant
            all == words(data@),
            total@ == "total="@,
            ws@.len() == all.len(),
            forall|j: int| 0 <= j < ws@.len() ==> (#[trigger] ws@[j])@ == all[j],
            k <= ws@.len(),
            total_token(all, 0) == total_token(all, k as int),
            !seen ==> total_word(all, 0) == total_word(all, k as int),
            seen ==> total_word(all, 0) < all.len(),
        decreases ws@.len() - k,
    {
        if let Some(rest) = strip_prefix_slice(ws[k], total.as_slice()) {
            seen = true;
            if let Some(v) = parse_u64_slice(rest) {
                return Ok(v);
            }
        }
        k += 1;
    }
    if seen {
        return Err(StatsError::ParseError("invalid integer in Linux PSI file".to_string()));
    }
    Err(StatsError::ParseError("unparseable Linux PSI line".to_string()))
}

impl View for CpuPressure {
    type V = CpuPressure;

    open spec fn view(&self) -> CpuPressure {
        *self
    }
}

impl StatType for CpuPressure {
    open spec fn zero_view() -> CpuPressure {
        CpuPressure { some: 0, full: 0 }
    }

    open spec fn text_model(data: Seq<char>) -> Option<CpuPressure> {
        match psi_totals(data) {
            Ok((some, full)) => Some(CpuPressure { some, full }),
            Err(_) => None,
        }
    }

    fn new_zero() -> (r: CpuPressure) {
        CpuPressure { some: 0, full: 0 }
    }

    fn name() -> &'static str {
        CPU_PATH
    }

    fn max_size() -> u64 {
        MAX_PRESSURE_FILE_SIZE
    }

    fn parse_text(data: &str) -> (r: Result<CpuPressure, StatsError>) {
        CpuPressure::parse(data)
    }

    fn duplicate(&self) -> (r: CpuPressure) {
        *self
    }
}

impl View for IoPressure {
    type V = IoPressure;

    open spec fn view(&self) -> IoPressure {
        *self
    }
}

impl StatType for IoPressure {
    open spec fn zero_view() -> IoPressure {
        IoPressure { some: 0, full: 0 }
    }

    open spec fn text_model(data: Seq<char>) -> Option<IoPressure> {
        match psi_totals(data) {
            Ok((some, full)) => Some(IoPressure { some, full }),
            Err(_) => None,
        }
    }

    fn new_zero() -> (r: IoPressure) {
        IoPressure { some: 0, full: 0 }
    }

    fn name() -> &'static str {
        IO_PATH
    }

    fn max_size() -> u64 {
        MAX_PRESSURE_FILE_SIZE
    }

    fn parse_text(data: &str) -> (r: Result<IoPressure, StatsError>) {
        IoPressure::parse(data)
    }

    fn duplicate(&self) -> (r: IoPressure) {
        *self
    }
}

impl View for MemoryPressure {
    type V = MemoryPressure;

    open spec fn view(&self) -> MemoryPressure {
        *self
    }
}

impl StatType for MemoryPressure {
    open spec fn zero_view() -> MemoryPressure {
        MemoryPressure { some: 0, full: 0 }
    }

    open spec fn text_model(data: Seq<char>) -> Option<MemoryPressure> {
        match psi_totals(data) {
            Ok((some, full)) => Some(MemoryPressure { some, full }),
            Err(_) => None,
        }
    }

    fn new_zero() -> (r: MemoryPressure) {
        MemoryPressure { some: 0, full: 0 }
    }

    fn name() -> &'static str {
        MEMORY_PATH
    }

    fn max_size() -> u64 {
        MAX_PRESSURE_FILE_SIZE
    }

    fn parse_text(data: &str) -> (r: Result<MemoryPressure, StatsError>) {
        MemoryPressure::parse(data)
    }

    fn duplicate(&self) -> (r: MemoryPressure) {
        *self
    }
}

} // verus!
