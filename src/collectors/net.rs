//! Per-interface network counters (`/proc/net/dev`).
//!
//! The file starts with two header lines; each further line is
//! `<name>: <up to 16 integers>`, eight receive counters then eight transmit
//! counters. Missing trailing counters stay zero. A line that cannot be read is
//! skipped; the other lines are still read.
use vstd::prelude::*;

use crate::stats::{StatType, StatsError};

use crate::named::{has_name, insert_named, lemma_insert_named, lemma_insert_named_keys, lemma_insert_named_len, names_distinct, NamedMap};
use crate::text::{lemma_split_len, chars_of, lines, parse_u64, parse_u64_slice, split, split_all,
    split_once, split_once_slice, string_from_chars, trim_start, trim_start_slice, words,
    words_first};

verus! {

pub const PATH: &'static str = "/proc/net/dev";

/// Largest net/dev file that is read.
pub const MAX_FILE_SIZE: u64 = 10 * 1024 * 1024;

/// Number of counters per interface.
pub const NUM_FIELDS: usize = 16;

/// Why one line could not be read.
#[derive(Debug, Clone, Copy, PartialEq, Eq)]
pub enum ParseError {
    /// A counter is not a decimal integer that fits in 64 bits.
    ParseIntError,
    /// The line has no `:` after the interface name.
    MissingField,
}

/// The counters of one network interface.
#[derive(Clone, Copy, Debug, PartialEq, Eq)]
pub struct InterfaceStats {
    pub rx_bytes: u64,
    pub rx_packets: u64,
    pub rx_errs: u64,
    pub rx_drop: u64,
    pub rx_fifo: u64,
    pub rx_frame: u64,
    pub rx_compressed: u64,
    pub rx_multicast: u64,
    pub tx_bytes: u64,
    pub tx_packets: u64,
    pub tx_errs: u64,
    pub tx_drop: u64,
    pub tx_fifo: u64,
    pub tx_colls: u64,
    pub tx_carrier: u64,
    pub tx_compressed: u64,
}

/// Counter `k` of the words `ws`: its value when present, else zero.
pub open spec fn word_value(ws: Seq<Seq<char>>, k: int) -> u64 {
    if k < ws.len() {
        match parse_u64(ws[k]) {
            Some(v) => v,
            None => 0,
        }
    } else {
        0
    }
}

/// The counters that the rest of an interface line (after its `:`) gives:
/// its whitespace-separated words fill the counters in order, and each of the
/// first sixteen must be an integer.
pub open spec fn interface_model(line: Seq<char>) -> Result<InterfaceStats, ParseError> {
    let ws = words(line);
    if forall|k: int| 0 <= k < ws.len() && k < NUM_FIELDS ==> (#[trigger] parse_u64(ws[k])) is Some {
        Ok(
            InterfaceStats {
                rx_bytes: word_value(ws, 0),
                rx_packets: word_value(ws, 1),
                rx_errs: word_value(ws, 2),
                rx_drop: word_value(ws, 3),
                rx_fifo: word_value(ws, 4),
                rx_frame: word_value(ws, 5),
                rx_compressed: word_value(ws, 6),
                rx_multicast: word_value(ws, 7),
                tx_bytes: word_value(ws, 8),
                tx_packets: word_value(ws, 9),
                tx_errs: word_value(ws, 10),
                tx_drop: word_value(ws, 11),
                tx_fifo: word_value(ws, 12),
                tx_colls: word_value(ws, 13),
                tx_carrier: word_value(ws, 14),
                tx_compressed: word_value(ws, 15),
            },
        )
    } else {
        Err(ParseError::ParseIntError)
    }
}

/// What one line of the table gives: nothing for an empty line, else the
/// interface name (before the first `:`, leading whitespace dropped) and its
/// counters.
pub open spec fn net_line(line: Seq<char>) -> Result<Option<(Seq<char>, InterfaceStats)>, ParseError> {
    if line.len() == 0 {
        Ok(None)
    } else {
        match split_once(trim_start(line), ':') {
            None => Err(ParseError::MissingField),
            Some((name, rest)) => match interface_model(rest) {
                Ok(s) => Ok(Some((name, s))),
                Err(e) => Err(e),
            },
        }
    }
}

/// The table after reading the lines `ls` in order; a line that fails is skipped.
pub open spec fn net_fold(
    es: Seq<(Seq<char>, InterfaceStats)>,
    ls: Seq<Seq<char>>,
) -> Seq<(Seq<char>, InterfaceStats)>
    decreases ls.len(),
{
    if ls.len() == 0 {
        es
    } else {
        let next = match net_line(ls[0]) {
            Ok(Some((name, s))) => insert_named(es, name, s),
            _ => es,
        };
        net_fold(next, ls.drop_first())
    }
}

/// The lines after the two header lines.
pub open spec fn body_lines(ls: Seq<Seq<char>>) -> Seq<Seq<char>> {
    if ls.len() <= 2 {
        Seq::empty()
    } else {
        ls.subrange(2, ls.len() as int)
    }
}

/// The interface table that a net/dev text describes.
pub open spec fn net_model(data: Seq<char>) -> Seq<(Seq<char>, InterfaceStats)> {
    net_fold(Seq::empty(), body_lines(lines(data)))
}

impl InterfaceStats {
    /// All counters zero.
    pub fn zero() -> (r: InterfaceStats)
        ensures
            r == interface_zero(),
    {
        InterfaceStats {
            rx_bytes: 0,
            rx_packets: 0,
            rx_errs: 0,
            rx_drop: 0,
            rx_fifo: 0,
            rx_frame: 0,
            rx_compressed: 0,
            rx_multicast: 0,
            tx_bytes: 0,
            tx_packets: 0,
            tx_errs: 0,
            tx_drop: 0,
            tx_fifo: 0,
            tx_colls: 0,
            tx_carrier: 0,
            tx_compressed: 0,
        }
    }

    /// Parses the counters of an interface line (the part after its `:`).
    pub fn parse(line: &[char]) -> (r: Result<InterfaceStats, ParseError>)
        ensures
            r == interface_model(line@),
    {
        let ws = words_first(line, NUM_FIELDS);
        let ghost all = words(line@);
        let mut vals: Vec<u64> = Vec::new();
        let mut k: usize = 0;
        while k < ws.len()
            invariant
                all == words(line@),
                ws@.len() <= NUM_FIELDS,
                ws@.len() == all.len() || ws@.len() == NUM_FIELDS,
                ws@.len() <= all.len(),
                forall|j: int| 0 <= j < ws@.len() ==> (#[trigger] ws@[j])@ == all[j],
                k <= ws@.len(),
                vals@.len() == k,
                forall|j: int| 0 <= j < k ==> (#[trigger] parse_u64(all[j])) is Some,
                forall|j: int| 0 <= j < k ==> vals@[j] == word_value(all, j),
            decreases ws@.len() - k,
        {
            match parse_u64_slice(ws[k]) {
                Some(v) => {
                    vals.push(v);
                },
                None => {
                    assert(parse_u64(all[k as int]) is None);
                    return Err(ParseError::ParseIntError);
                },
            }
            k += 1;
        }
        while k < NUM_FIELDS
            invariant
                all == words(line@),
                ws@.len() <= k <= NUM_FIELDS,
                ws@.len() == all.len() || ws@.len() == NUM_FIELDS,
                vals@.len() == k,
                forall|j: int| 0 <= j < ws@.len() ==> (#[trigger] parse_u64(all[j])) is Some,
                forall|j: int| 0 <= j < k ==> vals@[j] == word_value(all, j),
            decreases NUM_FIELDS - k,
        {
            vals.push(0);
            k += 1;
        }
        let s = InterfaceStats {
            rx_bytes: vals[0],
            rx_packets: vals[1],
            rx_errs: vals[2],
            rx_drop: vals[3],
            rx_fifo: vals[4],
            rx_frame: vals[5],
            rx_compressed: vals[6],
            rx_multicast: vals[7],
            tx_bytes: vals[8],
            tx_packets: vals[9],
            tx_errs: vals[10],
            tx_drop: vals[11],
            tx_fifo: vals[12],
            tx_colls: vals[13],
            tx_carrier: vals[14],
            tx_compressed: vals[15],
        };
        assert(s == interface_model(line@)->Ok_0);
        Ok(s)
    }
}

/// All counters zero.
pub open spec fn interface_zero() -> InterfaceStats {
    InterfaceStats {
        rx_bytes: 0,
        rx_packets: 0,
        rx_errs: 0,
        rx_drop: 0,
        rx_fifo: 0,
        rx_frame: 0,
        rx_compressed: 0,
        rx_multicast: 0,
        tx_bytes: 0,
        tx_packets: 0,
        tx_errs: 0,
        tx_drop: 0,
        tx_fifo: 0,
        tx_colls: 0,
        tx_carrier: 0,
        tx_compressed: 0,
    }
}

/// The counters of every network interface, by interface name.
pub struct NetDevStats {
    pub interfaces: NamedMap<InterfaceStats>,
}

impl NetDevStats {
    /// A table with no interfaces.
    pub fn new_zero() -> (r: NetDevStats)
        ensures
            r.interfaces@ == Seq::<(Seq<char>, InterfaceStats)>::empty(),
    {
        NetDevStats { interfaces: NamedMap::new() }
    }

    /// Parses a net/dev text. Lines that cannot be read are skipped.
    pub fn parse(data: &str) -> (r: NetDevStats)
        ensures
            r.interfaces@ == net_model(data@),
            r.interfaces@.len() <= data@.len() + 1,
            names_distinct(r.interfaces@),
            r.interfaces@.len() <= body_lines(lines(data@)).len(),
            forall|k: int|
                0 <= k < r.interfaces@.len() ==> net_line_adds(body_lines(lines(data@)), (#[trigger] r.interfaces@[k]).0),
    {
        proof {
            lemma_net_fold_keys(Seq::empty(), body_lines(lines(data@)));
            lemma_net_fold_distinct(Seq::empty(), body_lines(lines(data@)));
            lemma_split_len(data@, '\n', 0);
            lemma_net_fold_len(Seq::empty(), body_lines(lines(data@)));
        }
        let text = chars_of(data);
        let ls = split_all(text.as_slice(), '\n');
        let ghost all = lines(data@);
        let ghost body = body_lines(all);
        let mut s = NetDevStats::new_zero();
        // The first two lines hold the table's header.
        let mut i: usize = 2;
        assert(body.skip(0) =~= body);
        while i < ls.len()
            invariant
                all == split(data@, '\n'),
                body == body_lines(all),
                ls@.len() == all.len(),
                forall|k: int| 0 <= k < ls@.len() ==> (#[trigger] ls@[k])@ == all[k],
                2 <= i,
                i <= ls@.len() || ls@.len() <= 2,
                ls@.len() > 2 ==> net_fold(s.interfaces@, body.skip(i - 2)) == net_model(data@),
                ls@.len() <= 2 ==> s.interfaces@ == Seq::<(Seq<char>, InterfaceStats)>::empty(),
            decreases ls@.len() - i,
        {
            let line = ls[i];
            let ghost rest = body.skip(i - 2);
            assert(rest[0] == line@);
            assert(rest.drop_first() =~= body.skip(i - 1));
            let _ = s.parse_line(line);
            i += 1;
        }
        proof {
            if ls@.len() > 2 {
                assert(body.skip(i - 2) =~= Seq::<Seq<char>>::empty());
            } else {
                assert(body =~= Seq::<Seq<char>>::empty());
            }
        }
        s
    }

    /// Reads one line of the table into it.
    fn parse_line(&mut self, line: &[char]) -> (r: Result<(), ParseError>)
        ensures
            match net_line(line@) {
                Ok(Some((name, st))) => r is Ok && final(self).interfaces@ == insert_named(
                    old(self).interfaces@,
                    name,
                    st,
                ),
                Ok(None) => r is Ok && final(self).interfaces@ == old(self).interfaces@,
                Err(e) => r == Err::<(), ParseError>(e) && final(self).interfaces@ == old(
                    self,
                ).interfaces@,
            },
    {
        if line.len() == 0 {
            // The piece after the final newline.
            return Ok(());
        }
        let line = trim_start_slice(line);
        match split_once_slice(line, ':') {
            Some((name, rest)) => {
                let st = InterfaceStats::parse(rest)?;
                self.interfaces.insert(string_from_chars(name), st);
                Ok(())
            },
            None => Err(ParseError::MissingField),
        }
    }
}

/// Each line adds at most one entry to the table.
pub proof fn lemma_net_fold_len(es: Seq<(Seq<char>, InterfaceStats)>, ls: Seq<Seq<char>>)
    ensures
        net_fold(es, ls).len() <= es.len() + ls.len(),
    decreases ls.len(),
{
    if ls.len() > 0 {
        let next = match net_line(ls[0]) {
            Ok(Some((name, d))) => insert_named(es, name, d),
            _ => es,
        };
        if let Ok(Some((name, d))) = net_line(ls[0]) {
            lemma_insert_named_len(es, name, d);
        }
        lemma_net_fold_len(next, ls.drop_first());
    }
}

/// Reading lines keeps the names of the table distinct.
pub proof fn lemma_net_fold_distinct(es: Seq<(Seq<char>, InterfaceStats)>, ls: Seq<Seq<char>>)
    requires
        names_distinct(es),
    ensures
        names_distinct(net_fold(es, ls)),
    decreases ls.len(),
{
    if ls.len() > 0 {
        let next = match net_line(ls[0]) {
            Ok(Some((name, d))) => insert_named(es, name, d),
            _ => es,
        };
        if let Ok(Some((name, d))) = net_line(ls[0]) {
            lemma_insert_named(es, name, d);
        }
        lemma_net_fold_distinct(next, ls.drop_first());
    }
}

/// The interface name that a line adds to the table, if it adds one.
pub open spec fn net_line_name(line: Seq<char>) -> Option<Seq<char>> {
    match net_line(line) {
        Ok(Some((name, _))) => Some(name),
        _ => None,
    }
}

/// One of the lines `ls` adds the name `name`.
pub open spec fn net_line_adds(ls: Seq<Seq<char>>, name: Seq<char>) -> bool {
    exists|i: int| 0 <= i < ls.len() && net_line_name(ls[i]) == Some(name)
}

/// Every name of the table read from `ls` into `es` was in `es` or is the
/// name that one of the lines adds.
pub proof fn lemma_net_fold_keys(es: Seq<(Seq<char>, InterfaceStats)>, ls: Seq<Seq<char>>)
    ensures
        forall|k: int|
            0 <= k < net_fold(es, ls).len() ==> has_name(es, (#[trigger] net_fold(es, ls)[k]).0)
                || net_line_adds(ls, net_fold(es, ls)[k].0),
    decreases ls.len(),
{
    if ls.len() > 0 {
        let next = match net_line(ls[0]) {
            Ok(Some((name, d))) => insert_named(es, name, d),
            _ => es,
        };
        if let Ok(Some((name, d))) = net_line(ls[0]) {
            lemma_insert_named_keys(es, name, d);
        }
        let rest = ls.drop_first();
        lemma_net_fold_keys(next, rest);
        let r = net_fold(es, ls);
        assert(r == net_fold(next, rest));
        assert forall|k: int| 0 <= k < r.len() implies has_name(es, (#[trigger] r[k]).0)
            || net_line_adds(ls, r[k].0) by {
            let n = r[k].0;
            assert(has_name(next, n) || net_line_adds(rest, n));
            if net_line_adds(rest, n) {
                let i = choose|i: int| 0 <= i < rest.len() && net_line_name(rest[i]) == Some(n);
                assert(ls[i + 1] == rest[i]);
                assert(net_line_adds(ls, n));
            } else {
                let j = choose|j: int| 0 <= j < next.len() && next[j].0 == n;
                if let Ok(Some((name, d))) = net_line(ls[0]) {
                    assert(next[j].0 == name || (j < es.len() && es[j].0 == next[j].0));
                    if next[j].0 == name {
                        assert(net_line_name(ls[0]) == Some(n));
                        assert(net_line_adds(ls, n));
                    } else {
                        assert(has_name(es, n));
                    }
                } else {
                    assert(has_name(es, n));
                }
            }
        }
    }
}

impl View for NetDevStats {
    type V = Seq<(Seq<char>, InterfaceStats)>;

    open spec fn view(&self) -> Seq<(Seq<char>, InterfaceStats)> {
        self.interfaces@
    }
}

impl StatType for NetDevStats {
    open spec fn zero_view() -> Seq<(Seq<char>, InterfaceStats)> {
        Seq::empty()
    }

    open spec fn text_model(data: Seq<char>) -> Option<Seq<(Seq<char>, InterfaceStats)>> {
        Some(net_model(data))
    }

    fn new_zero() -> (r: NetDevStats) {
        NetDevStats::new_zero()
    }

    fn name() -> &'static str {
        PATH
    }

    fn max_size() -> u64 {
        MAX_FILE_SIZE
    }

    fn parse_text(data: &str) -> (r: Result<NetDevStats, StatsError>) {
        Ok(NetDevStats::parse(data))
    }

    fn duplicate(&self) -> (r: NetDevStats) {
        NetDevStats { interfaces: self.interfaces.duplicate() }
    }
}

} // verus!
