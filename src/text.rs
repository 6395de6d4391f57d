//! Character-level scanning of the kernel's text files: line and token
//! splitting, prefix and suffix handling, whitespace trimming and integer
//! parsing, each with a specification over `Seq<char>`.
use vstd::prelude::*;
use vstd::slice::slice_subrange;

verus! {

/// Copies the characters of `s` into a vector, in order.
pub fn chars_of(s: &str) -> (r: Vec<char>)
    ensures
        r@ == s@,
{
    let mut out: Vec<char> = Vec::new();
    for c in it: s.chars()
        invariant
            out@ == it.seq().take(it.index() as int),
            it.seq() == s@,
    {
        out.push(c);
    }
    out
}

/// Collects characters into a `String`.
///
/// Relies on `String`'s `FromIterator<&char>`: the string holds the
/// characters in order.
#[verifier::external_body]
pub fn string_from_chars(c: &[char]) -> (r: String)
    ensures
        r@ == c@,
{
    c.iter().collect()
}

// ---------------------------------------------------------------------------
// Separators

/// Index of the first `c` in `s` at or after `i`, or `s.len()` when there is none.
pub open spec fn find_char(s: Seq<char>, c: char, i: int) -> int
    decreases s.len() - i,
{
    if i < 0 || i >= s.len() {
        s.len() as int
    } else if s[i] == c {
        i
    } else {
        find_char(s, c, i + 1)
    }
}

pub proof fn lemma_find_char(s: Seq<char>, c: char, i: int)
    requires
        0 <= i <= s.len(),
    ensures
        i <= find_char(s, c, i) <= s.len(),
        find_char(s, c, i) < s.len() ==> s[find_char(s, c, i)] == c,
        forall|k: int| i <= k < find_char(s, c, i) ==> s[k] != c,
    decreases s.len() - i,
{
    if i < s.len() && s[i] != c {
        lemma_find_char(s, c, i + 1);
    }
}

/// The pieces of `s` from position `i` on, cut at every `c`; like `str::split`
/// with a `char` pattern, a separator at either end yields an empty piece.
pub open spec fn split_from(s: Seq<char>, c: char, i: int) -> Seq<Seq<char>>
    decreases s.len() - i,
{
    if i < 0 || i > s.len() {
        Seq::empty()
    } else {
        let j = find_char(s, c, i);
        proof {
            lemma_find_char(s, c, i);
        }
        if j >= s.len() {
            seq![s.subrange(i, s.len() as int)]
        } else {
            seq![s.subrange(i, j)] + split_from(s, c, j + 1)
        }
    }
}

/// All pieces of `s` cut at every `c`.
pub open spec fn split(s: Seq<char>, c: char) -> Seq<Seq<char>> {
    split_from(s, c, 0)
}

/// The lines of a text: its pieces between newline characters.
pub open spec fn lines(s: Seq<char>) -> Seq<Seq<char>> {
    split(s, '\n')
}

/// Unfolds one step of `split_from`.
pub proof fn lemma_split_step(s: Seq<char>, c: char, i: int)
    requires
        0 <= i <= s.len(),
    ensures
        split_from(s, c, i).len() >= 1,
        split_from(s, c, i)[0] == s.subrange(i, find_char(s, c, i)),
        find_char(s, c, i) < s.len() ==> split_from(s, c, i).drop_first() == split_from(
            s,
            c,
            find_char(s, c, i) + 1,
        ),
        find_char(s, c, i) >= s.len() ==> split_from(s, c, i).len() == 1,
{
    lemma_find_char(s, c, i);
    let j = find_char(s, c, i);
    if j < s.len() {
        assert(split_from(s, c, i).drop_first() =~= split_from(s, c, j + 1));
    }
}

/// A text of `n` characters has at most `n + 1` pieces.
pub proof fn lemma_split_len(s: Seq<char>, c: char, i: int)
    requires
        0 <= i <= s.len(),
    ensures
        split_from(s, c, i).len() <= s.len() - i + 1,
    decreases s.len() - i,
{
    lemma_find_char(s, c, i);
    let j = find_char(s, c, i);
    if j < s.len() {
        lemma_split_len(s, c, j + 1);
    }
}

/// Finds the next separator at or after `i`.
pub fn find_char_from(s: &[char], c: char, i: usize) -> (j: usize)
    requires
        i <= s@.len(),
    ensures
        j == find_char(s@, c, i as int),
{
    let mut j = i;
    while j < s.len()
        invariant
            i <= j <= s@.len(),
            find_char(s@, c, i as int) == find_char(s@, c, j as int),
        decreases s@.len() - j,
    {
        if s[j] == c {
            return j;
        }
        j += 1;
    }
    j
}

/// Returns the first `max` pieces of `s` cut at `c` (fewer when there are fewer).
pub fn split_first<'a>(s: &'a [char], c: char, max: usize) -> (r: Vec<&'a [char]>)
    ensures
        r@.len() == if split(s@, c).len() < max {
            split(s@, c).len() as int
        } else {
            max as int
        },
        forall|k: int| 0 <= k < r@.len() ==> (#[trigger] r@[k])@ == split(s@, c)[k],
{
    let ghost all = split(s@, c);
    let mut out: Vec<&'a [char]> = Vec::new();
    let mut pos: usize = 0;
    let mut done = false;
    proof {
        lemma_split_step(s@, c, 0);
    }
    while !done && out.len() < max
        invariant
            all == split(s@, c),
            pos <= s@.len(),
            out@.len() <= max,
            split_from(s@, c, pos as int).len() >= 1,
            all.len() == out@.len() + if done {
                0
            } else {
                split_from(s@, c, pos as int).len()
            },
            forall|k: int| 0 <= k < out@.len() ==> (#[trigger] out@[k])@ == all[k],
            !done ==> forall|k: int|
                0 <= k < split_from(s@, c, pos as int).len() ==> #[trigger] split_from(
                    s@,
                    c,
                    pos as int,
                )[k] == all[out@.len() + k],
        decreases max - out@.len(),
    {
        proof {
            lemma_split_step(s@, c, pos as int);
            lemma_find_char(s@, c, pos as int);
        }
        let j = find_char_from(s, c, pos);
        let piece = slice_subrange(s, pos, j);
        let ghost rest = split_from(s@, c, pos as int);
        assert(rest[0] == all[out@.len() as int]);
        out.push(piece);
        if j >= s.len() {
            done = true;
        } else {
            proof {
                lemma_split_step(s@, c, j + 1);
                assert forall|k: int| 0 <= k < split_from(s@, c, j + 1).len() implies #[trigger] split_from(
                    s@,
                    c,
                    j + 1,
                )[k] == all[out@.len() + k] by {
                    assert(split_from(s@, c, j + 1)[k] == rest.drop_first()[k]);
                    assert(rest[k + 1] == all[out@.len() - 1 + k + 1]);
                }
            }
            pos = j + 1;
        }
    }
    out
}

/// Returns every piece of `s` cut at `c`.
pub fn split_all<'a>(s: &'a [char], c: char) -> (r: Vec<&'a [char]>)
    ensures
        r@.len() == split(s@, c).len(),
        forall|k: int| 0 <= k < r@.len() ==> (#[trigger] r@[k])@ == split(s@, c)[k],
{
    let ghost all = split(s@, c);
    let mut out: Vec<&'a [char]> = Vec::new();
    let mut pos: usize = 0;
    let mut done = false;
    proof {
        lemma_split_step(s@, c, 0);
    }
    while !done
        invariant
            all == split(s@, c),
            pos <= s@.len(),
            split_from(s@, c, pos as int).len() >= 1,
            all.len() == out@.len() + if done {
                0
            } else {
                split_from(s@, c, pos as int).len()
            },
            forall|k: int| 0 <= k < out@.len() ==> (#[trigger] out@[k])@ == all[k],
            !done ==> forall|k: int|
                0 <= k < split_from(s@, c, pos as int).len() ==> #[trigger] split_from(
                    s@,
                    c,
                    pos as int,
                )[k] == all[out@.len() + k],
        decreases (if done {
            0
        } else {
            s@.len() - pos + 1
        }),
    {
        proof {
            lemma_split_step(s@, c, pos as int);
            lemma_find_char(s@, c, pos as int);
        }
        let j = find_char_from(s, c, pos);
        let piece = slice_subrange(s, pos, j);
        let ghost rest = split_from(s@, c, pos as int);
        assert(rest[0] == all[out@.len() as int]);
        out.push(piece);
        if j >= s.len() {
            done = true;
        } else {
            proof {
                lemma_split_step(s@, c, j + 1);
                assert forall|k: int| 0 <= k < split_from(s@, c, j + 1).len() implies #[trigger] split_from(
                    s@,
                    c,
                    j + 1,
                )[k] == all[out@.len() + k] by {
                    assert(split_from(s@, c, j + 1)[k] == rest.drop_first()[k]);
                    assert(rest[k + 1] == all[out@.len() - 1 + k + 1]);
                }
            }
            pos = j + 1;
        }
    }
    out
}

// ---------------------------------------------------------------------------
// Whitespace

/// Unicode White_Space, as `char::is_whitespace` defines it.
pub open spec fn is_ws(c: char) -> bool {
    c == ' ' || ('\x09' <= c && c <= '\x0d') || c == '\u{85}' || c == '\u{a0}' || c
        == '\u{1680}' || ('\u{2000}' <= c && c <= '\u{200a}') || c == '\u{2028}' || c == '\u{2029}'
        || c == '\u{202f}' || c == '\u{205f}' || c == '\u{3000}'
}

pub fn is_whitespace(c: char) -> (r: bool)
    ensures
        r == is_ws(c),
{
    c == ' ' || ('\x09' <= c && c <= '\x0d') || c == '\u{85}' || c == '\u{a0}' || c == '\u{1680}'
        || ('\u{2000}' <= c && c <= '\u{200a}') || c == '\u{2028}' || c == '\u{2029}' || c
        == '\u{202f}' || c == '\u{205f}' || c == '\u{3000}'
}

/// Index of the first character at or after `i` that is (when `ws`) or is
/// not (when `!ws`) whitespace, or `s.len()`.
pub open spec fn find_ws(s: Seq<char>, ws: bool, i: int) -> int
    decreases s.len() - i,
{
    if i < 0 || i >= s.len() {
        s.len() as int
    } else if is_ws(s[i]) == ws {
        i
    } else {
        find_ws(s, ws, i + 1)
    }
}

pub proof fn lemma_find_ws(s: Seq<char>, ws: bool, i: int)
    requires
        0 <= i <= s.len(),
    ensures
        i <= find_ws(s, ws, i) <= s.len(),
        find_ws(s, ws, i) < s.len() ==> is_ws(s[find_ws(s, ws, i)]) == ws,
        forall|k: int| i <= k < find_ws(s, ws, i) ==> is_ws(s[k]) != ws,
    decreases s.len() - i,
{
    if i < s.len() && is_ws(s[i]) != ws {
        lemma_find_ws(s, ws, i + 1);
    }
}

pub fn find_ws_from(s: &[char], ws: bool, i: usize) -> (j: usize)
    requires
        i <= s@.len(),
    ensures
        j == find_ws(s@, ws, i as int),
{
    let mut j = i;
    while j < s.len()
        invariant
            i <= j <= s@.len(),
            find_ws(s@, ws, i as int) == find_ws(s@, ws, j as int),
        decreases s@.len() - j,
    {
        if is_whitespace(s[j]) == ws {
            return j;
        }
        j += 1;
    }
    j
}

/// `s` without its leading whitespace, as `str::trim_start` gives it.
pub open spec fn trim_start(s: Seq<char>) -> Seq<char> {
    s.subrange(find_ws(s, false, 0), s.len() as int)
}

pub fn trim_start_slice(s: &[char]) -> (r: &[char])
    ensures
        r@ == trim_start(s@),
{
    proof {
        lemma_find_ws(s@, false, 0);
    }
    let i = find_ws_from(s, false, 0);
    slice_subrange(s, i, s.len())
}

/// The words of `s` from position `i` on: its maximal runs of non-whitespace
/// characters, as `str::split_whitespace` gives them.
pub open spec fn words_from(s: Seq<char>, i: int) -> Seq<Seq<char>>
    decreases s.len() - i,
{
    if i < 0 || i > s.len() {
        Seq::empty()
    } else {
        let a = find_ws(s, false, i);
        proof {
            lemma_find_ws(s, false, i);
        }
        if a >= s.len() {
            Seq::empty()
        } else {
            let b = find_ws(s, true, a);
            proof {
                lemma_find_ws(s, true, a);
            }
            seq![s.subrange(a, b)] + words_from(s, b)
        }
    }
}

pub open spec fn words(s: Seq<char>) -> Seq<Seq<char>> {
    words_from(s, 0)
}

/// A text of `n` characters has at most `n` words.
pub proof fn lemma_words_len(s: Seq<char>, i: int)
    requires
        0 <= i <= s.len(),
    ensures
        words_from(s, i).len() <= s.len() - i,
    decreases s.len() - i,
{
    lemma_find_ws(s, false, i);
    let a = find_ws(s, false, i);
    if a < s.len() {
        lemma_find_ws(s, true, a);
        lemma_words_len(s, find_ws(s, true, a));
    }
}

/// Returns the first `max` words of `s` (fewer when there are fewer).
pub fn words_first<'a>(s: &'a [char], max: usize) -> (r: Vec<&'a [char]>)
    ensures
        r@.len() == if words(s@).len() < max {
            words(s@).len() as int
        } else {
            max as int
        },
        forall|k: int| 0 <= k < r@.len() ==> (#[trigger] r@[k])@ == words(s@)[k],
{
    let ghost all = words(s@);
    let mut out: Vec<&'a [char]> = Vec::new();
    let mut pos: usize = 0;
    loop
        invariant
            all == words(s@),
            pos <= s@.len(),
            out@.len() <= max,
            all.len() == out@.len() + words_from(s@, pos as int).len(),
            forall|k: int| 0 <= k < out@.len() ==> (#[trigger] out@[k])@ == all[k],
            forall|k: int|
                0 <= k < words_from(s@, pos as int).len() ==> #[trigger] words_from(
                    s@,
                    pos as int,
                )[k] == all[out@.len() + k],
        ensures
            out@.len() == if all.len() < max {
                all.len() as int
            } else {
                max as int
            },
            forall|k: int| 0 <= k < out@.len() ==> (#[trigger] out@[k])@ == all[k],
        decreases max - out@.len(),
    {
        if out.len() >= max {
            break;
        }
        proof {
            lemma_find_ws(s@, false, pos as int);
        }
        let a = find_ws_from(s, false, pos);
        if a >= s.len() {
            assert(words_from(s@, pos as int) =~= Seq::empty());
            break;
        }
        proof {
            lemma_find_ws(s@, true, a as int);
        }
        let b = find_ws_from(s, true, a);
        let ghost rest = words_from(s@, pos as int);
        assert(rest =~= seq![s@.subrange(a as int, b as int)] + words_from(s@, b as int));
        assert(rest[0] == all[out@.len() as int]);
        out.push(slice_subrange(s, a, b));
        proof {
            assert forall|k: int| 0 <= k < words_from(s@, b as int).len() implies #[trigger] words_from(
                s@,
                b as int,
            )[k] == all[out@.len() + k] by {
                assert(words_from(s@, b as int)[k] == rest[k + 1]);
            }
        }
        pos = b;
    }
    out
}

// ---------------------------------------------------------------------------
// Prefixes, suffixes and substrings

/// `s` without the prefix `p`, or `None` when `s` does not start with `p`
/// (`str::strip_prefix`).
pub open spec fn strip_prefix(s: Seq<char>, p: Seq<char>) -> Option<Seq<char>> {
    if p.is_prefix_of(s) {
        Some(s.subrange(p.len() as int, s.len() as int))
    } else {
        None
    }
}

/// `s` without the suffix `p`, or `None` when `s` does not end with `p`
/// (`str::strip_suffix`).
pub open spec fn strip_suffix(s: Seq<char>, p: Seq<char>) -> Option<Seq<char>> {
    if p.is_suffix_of(s) {
        Some(s.subrange(0, s.len() - p.len()))
    } else {
        None
    }
}

/// Whether `p` occurs in `s` at position `i`.
pub open spec fn occurs_at(s: Seq<char>, p: Seq<char>, i: int) -> bool {
    0 <= i && i + p.len() <= s.len() && s.subrange(i, i + p.len()) == p
}

pub fn starts_with_at(s: &[char], p: &[char], i: usize) -> (r: bool)
    requires
        i <= s@.len(),
    ensures
        r == occurs_at(s@, p@, i as int),
{
    let n = s.len();
    if p.len() > n - i {
        return false;
    }
    let mut k: usize = 0;
    while k < p.len()
        invariant
            n == s@.len(),
            k <= p@.len(),
            i + p@.len() <= s@.len(),
            forall|m: int| 0 <= m < k ==> s@[i + m] == p@[m],
        decreases p@.len() - k,
    {
        if s[i + k] != p[k] {
            assert(s@.subrange(i as int, i + p@.len())[k as int] != p@[k as int]);
            return false;
        }
        k += 1;
    }
    assert(s@.subrange(i as int, i + p@.len()) =~= p@);
    true
}

pub fn strip_prefix_slice<'a>(s: &'a [char], p: &[char]) -> (r: Option<&'a [char]>)
    ensures
        match r {
            Some(t) => strip_prefix(s@, p@) == Some(t@),
            None => strip_prefix(s@, p@) is None,
        },
{
    if starts_with_at(s, p, 0) {
        assert(p@.is_prefix_of(s@)) by {
            assert(s@.subrange(0, p@.len() as int) == p@);
        }
        Some(slice_subrange(s, p.len(), s.len()))
    } else {
        assert(!p@.is_prefix_of(s@)) by {
            if p@.is_prefix_of(s@) {
                assert(s@.subrange(0, p@.len() as int) =~= p@);
            }
        }
        None
    }
}

pub fn strip_suffix_slice<'a>(s: &'a [char], p: &[char]) -> (r: Option<&'a [char]>)
    ensures
        match r {
            Some(t) => strip_suffix(s@, p@) == Some(t@),
            None => strip_suffix(s@, p@) is None,
        },
{
    if p.len() > s.len() {
        return None;
    }
    let start = s.len() - p.len();
    if starts_with_at(s, p, start) {
        assert(p@.is_suffix_of(s@)) by {
            assert(s@.subrange(start as int, s@.len() as int) =~= p@);
        }
        Some(slice_subrange(s, 0, start))
    } else {
        assert(!p@.is_suffix_of(s@)) by {
            if p@.is_suffix_of(s@) {
                assert(s@.subrange(start as int, start + p@.len()) =~= p@);
            }
        }
        None
    }
}

/// Cuts `s` at the first `c` (`str::split_once` with a `char` pattern).
pub open spec fn split_once(s: Seq<char>, c: char) -> Option<(Seq<char>, Seq<char>)> {
    let j = find_char(s, c, 0);
    if j < s.len() {
        Some((s.subrange(0, j), s.subrange(j + 1, s.len() as int)))
    } else {
        None
    }
}

pub fn split_once_slice<'a>(s: &'a [char], c: char) -> (r: Option<(&'a [char], &'a [char])>)
    ensures
        match r {
            Some((a, b)) => split_once(s@, c) == Some((a@, b@)),
            None => split_once(s@, c) is None,
        },
{
    proof {
        lemma_find_char(s@, c, 0);
    }
    let j = find_char_from(s, c, 0);
    if j < s.len() {
        Some((slice_subrange(s, 0, j), slice_subrange(s, j + 1, s.len())))
    } else {
        None
    }
}

// ---------------------------------------------------------------------------
// Integers

pub open spec fn is_digit(c: char) -> bool {
    '0' <= c && c <= '9'
}

pub open spec fn digit_value(c: char) -> nat {
    (c as u32 - '0' as u32) as nat
}

/// The value of a string of decimal digits.
pub open spec fn digits_value(s: Seq<char>) -> nat
    decreases s.len(),
{
    if s.len() == 0 {
        0
    } else {
        digits_value(s.drop_last()) * 10 + digit_value(s.last())
    }
}

/// The digits of an unsigned decimal: an optional leading `+` is dropped.
pub open spec fn unsigned_digits(s: Seq<char>) -> Seq<char> {
    if s.len() > 0 && s[0] == '+' {
        s.drop_first()
    } else {
        s
    }
}

/// What `str::parse::<u64>` accepts and returns: one or more decimal digits
/// after an optional `+`, of a value that fits in 64 bits.
pub open spec fn parse_u64(s: Seq<char>) -> Option<u64> {
    let d = unsigned_digits(s);
    if d.len() > 0 && (forall|i: int| 0 <= i < d.len() ==> is_digit(#[trigger] d[i]))
        && digits_value(d) <= u64::MAX {
        Some(digits_value(d) as u64)
    } else {
        None
    }
}

/// What `str::parse::<u32>` accepts and returns.
pub open spec fn parse_u32(s: Seq<char>) -> Option<u32> {
    match parse_u64(s) {
        Some(v) => if v <= u32::MAX {
            Some(v as u32)
        } else {
            None
        },
        None => None,
    }
}

proof fn lemma_digits_value_grows(s: Seq<char>, k: int)
    requires
        0 <= k <= s.len(),
    ensures
        digits_value(s) >= digits_value(s.take(k)),
    decreases s.len(),
{
    if k < s.len() {
        lemma_digits_value_grows(s.drop_last(), k);
        assert(s.drop_last().take(k) =~= s.take(k));
    } else {
        assert(s.take(k) =~= s);
    }
}

/// Parses a decimal `u64` as `str::parse::<u64>` does.
pub fn parse_u64_slice(s: &[char]) -> (r: Option<u64>)
    ensures
        r == parse_u64(s@),
{
    let ghost d = unsigned_digits(s@);
    let start: usize = if s.len() > 0 && s[0] == '+' {
        1
    } else {
        0
    };
    assert(d =~= s@.subrange(start as int, s@.len() as int));
    if start >= s.len() {
        return None;
    }
    let mut acc: u64 = 0;
    let mut i: usize = start;
    while i < s.len()
        invariant
            start <= i <= s@.len(),
            d == unsigned_digits(s@),
            d =~= s@.subrange(start as int, s@.len() as int),
            forall|m: int| 0 <= m < i - start ==> is_digit(#[trigger] d[m]),
            acc as nat == digits_value(d.take(i - start)),
        decreases s@.len() - i,
    {
        let c = s[i];
        if !('0' <= c && c <= '9') {
            assert(!is_digit(d[i - start]));
            assert(!(forall|m: int| 0 <= m < d.len() ==> is_digit(#[trigger] d[m])));
            return None;
        }
        let dv: u64 = (c as u32 - '0' as u32) as u64;
        assert(d.take(i - start + 1).drop_last() =~= d.take(i - start));
        if acc > 1844674407370955161 || (acc == 1844674407370955161 && dv > 5) {
            proof {
                lemma_digits_value_grows(d, i - start + 1);
            }
            return None;
        }
        acc = acc * 10 + dv;
        i += 1;
    }
    assert(d.take(i - start) =~= d);
    Some(acc)
}

pub fn parse_u32_slice(s: &[char]) -> (r: Option<u32>)
    ensures
        r == parse_u32(s@),
{
    match parse_u64_slice(s) {
        Some(v) => if v <= 0xffff_ffffu64 {
            Some(v as u32)
        } else {
            None
        },
        None => None,
    }
}

} // verus!
