//! Which bar each monitor shows. A monitor is described by its connector,
//! manufacturer and model (empty when unknown) and by whether it already shows
//! a bar; a monitor rule matches a monitor when each of its three patterns
//! matches the corresponding text.
use vstd::prelude::*;

use crate::config::{
    bar_index, compile_regex, placeable, regex_accepts, BarConfig, Config, Mode, MonitorRule, NO_BAR_NAME,
    PRIMARY_BAR_NAME,
};

verus! {

/// How long a new monitor may lack its description before it is placed
/// anyway, in nanoseconds.
pub const MONITOR_METADATA_TIMEOUT_NS: u64 = 5_000_000_000;

/// A monitor, as the placement rules see it.
#[derive(Debug)]
pub struct MonitorInfo {
    pub connector: String,
    pub manufacturer: String,
    pub model: String,
    /// Whether the monitor shows a bar now.
    pub has_bar: bool,
}

/// Whether the regular expression `pattern` matches somewhere in `text`.
pub uninterp spec fn regex_matches(pattern: Seq<char>, text: Seq<char>) -> bool;

/// Relies on `regex::Regex::new` and `regex::Regex::is_match`: whether a
/// pattern that compiles matches somewhere in the text, which depends on the
/// two alone.
#[verifier::external_body]
fn pattern_is_match(pattern: &str, text: &str) -> (r: bool)
    requires
        regex_accepts(pattern@),
    ensures
        r == regex_matches(pattern@, text@),
{
    match regex::Regex::new(pattern) {
        Ok(re) => re.is_match(text),
        Err(_) => false,
    }
}

/// Whether `rule` matches monitor `m`.
pub open spec fn rule_matches(rule: MonitorRule, m: MonitorInfo) -> bool {
    &&& regex_matches(rule.model@, m.model@)
    &&& regex_matches(rule.manufacturer@, m.manufacturer@)
    &&& regex_matches(rule.connector@, m.connector@)
}

/// Whether `rule` matches monitor `mon`.
pub fn is_rule_match(rule: &MonitorRule, mon: &MonitorInfo) -> (r: bool)
    requires
        rule.wf(),
    ensures
        r == rule_matches(*rule, *mon),
{
    pattern_is_match(rule.model.as_str(), mon.model.as_str()) && pattern_is_match(
        rule.manufacturer.as_str(),
        mon.manufacturer.as_str(),
    ) && pattern_is_match(rule.connector.as_str(), mon.connector.as_str())
}

/// The bar that monitor `m` shows under the rules `rules`, as a position among
/// `bars`, or `None` for no bar: the first rule that matches decides (the
/// primary bar when it names none, no bar when it names `none`); without a
/// matching rule the monitor shows the primary bar.
pub open spec fn monitor_bar(
    rules: Seq<MonitorRule>,
    bars: Seq<(String, BarConfig)>,
    m: MonitorInfo,
) -> Option<int>
    decreases rules.len(),
{
    if rules.len() == 0 {
        Some(bar_index(bars, PRIMARY_BAR_NAME@))
    } else if rule_matches(rules[0], m) {
        match rules[0].bar {
            None => Some(bar_index(bars, PRIMARY_BAR_NAME@)),
            Some(b) => if b@ == NO_BAR_NAME@ {
                None
            } else if bar_index(bars, b@) < bars.len() {
                Some(bar_index(bars, b@))
            } else {
                None
            },
        }
    } else {
        monitor_bar(rules.drop_first(), bars, m)
    }
}

/// The bar of monitor `mon` when each monitor has its own bar.
pub fn pick_monitor_config(mon: &MonitorInfo, config: &Config) -> (r: Option<usize>)
    requires
        placeable(*config),
    ensures
        match r {
            Some(i) => monitor_bar(config.monitor_rules@, config.bars@, *mon) == Some(i as int),
            None => monitor_bar(config.monitor_rules@, config.bars@, *mon) is None,
        },
{
    let primary = config.find_bar_index(PRIMARY_BAR_NAME);
    let none_name = NO_BAR_NAME.to_string();
    let ghost rules = config.monitor_rules@;
    let mut k: usize = 0;
    assert(rules.skip(0) =~= rules);
    while k < config.monitor_rules.len()
        invariant
            rules == config.monitor_rules@,
            placeable(*config),
            primary == bar_index(config.bars@, PRIMARY_BAR_NAME@),
            none_name@ == NO_BAR_NAME@,
            k <= rules.len(),
            monitor_bar(rules, config.bars@, *mon) == monitor_bar(
                rules.skip(k as int),
                config.bars@,
                *mon,
            ),
        decreases rules.len() - k,
    {
        let rule = &config.monitor_rules[k];
        assert(rules.skip(k as int)[0] == rules[k as int]);
        assert(rules.skip(k as int).drop_first() =~= rules.skip(k + 1));
        if is_rule_match(rule, mon) {
            match &rule.bar {
                Some(name) => {
                    if *name == none_name {
                        return None;
                    }
                    let i = config.find_bar_index(name.as_str());
                    if i < config.bars.len() {
                        return Some(i);
                    } else {
                        return None;
                    }
                },
                None => {
                    return Some(primary);
                },
            }
        }
        k += 1;
    }
    assert(rules.skip(k as int) =~= Seq::<MonitorRule>::empty());
    Some(primary)
}

/// Scans the monitors from `j` on with one rule: the first monitor not yet
/// excluded that the rule matches is chosen when the rule names a bar, and
/// excluded when that bar is `none`; a rule that names no bar chooses nothing.
pub open spec fn scan_rule(
    rule: MonitorRule,
    mons: Seq<MonitorInfo>,
    j: int,
    ex: Seq<bool>,
) -> (Option<int>, Seq<bool>)
    decreases mons.len() - j,
{
    if j < 0 || j >= mons.len() {
        (None, ex)
    } else if !ex[j] && rule_matches(rule, mons[j]) && rule.bar is Some {
        if rule.bar->Some_0@ == NO_BAR_NAME@ {
            scan_rule(rule, mons, j + 1, ex.update(j, true))
        } else {
            (Some(j), ex)
        }
    } else {
        scan_rule(rule, mons, j + 1, ex)
    }
}

/// Scans with each rule in turn, until one chooses a monitor.
pub open spec fn scan_rules(rules: Seq<MonitorRule>, mons: Seq<MonitorInfo>, ex: Seq<bool>) -> (
    Option<int>,
    Seq<bool>,
)
    decreases rules.len(),
{
    if rules.len() == 0 {
        (None, ex)
    } else {
        let (r, ex2) = scan_rule(rules[0], mons, 0, ex);
        if r is Some {
            (r, ex2)
        } else {
            scan_rules(rules.drop_first(), mons, ex2)
        }
    }
}

/// The first monitor from `j` on that is not excluded and, when `with_bar`,
/// shows a bar.
pub open spec fn first_free(mons: Seq<MonitorInfo>, ex: Seq<bool>, j: int, with_bar: bool) -> Option<int>
    decreases mons.len() - j,
{
    if j < 0 || j >= mons.len() {
        None
    } else if !ex[j] && (!with_bar || mons[j].has_bar) {
        Some(j)
    } else {
        first_free(mons, ex, j + 1, with_bar)
    }
}

/// The monitor that shows the primary bar when only one does: the one the
/// rules choose; else one that shows a bar already, so that the bar does not
/// move; else the first monitor that no rule excluded.
pub open spec fn primary_monitor(rules: Seq<MonitorRule>, mons: Seq<MonitorInfo>) -> Option<int> {
    let (r, ex) = scan_rules(rules, mons, Seq::new(mons.len(), |i: int| false));
    if r is Some {
        r
    } else if first_free(mons, ex, 0, true) is Some {
        first_free(mons, ex, 0, true)
    } else {
        first_free(mons, ex, 0, false)
    }
}

/// The monitor that shows the primary bar when only one does.
pub fn pick_primary_monitor(rules: &Vec<MonitorRule>, monitors: &Vec<MonitorInfo>) -> (r: Option<usize>)
    requires
        forall|i: int| 0 <= i < rules@.len() ==> (#[trigger] rules@[i]).wf(),
    ensures
        match r {
            Some(j) => primary_monitor(rules@, monitors@) == Some(j as int),
            None => primary_monitor(rules@, monitors@) is None,
        },
{
    let none_name = NO_BAR_NAME.to_string();
    let n = monitors.len();
    let mut excluded: Vec<bool> = Vec::new();
    while excluded.len() < n
        invariant
            excluded@.len() <= n,
            forall|i: int| 0 <= i < excluded@.len() ==> !excluded@[i],
        decreases n - excluded@.len(),
    {
        excluded.push(false);
    }
    let ghost init = excluded@;
    assert(init =~= Seq::new(monitors@.len(), |i: int| false));
    let mut k: usize = 0;
    assert(rules@.skip(0) =~= rules@);
    while k < rules.len()
        invariant
            init == Seq::new(monitors@.len(), |i: int| false),
            n == monitors@.len(),
            excluded@.len() == n,
            none_name@ == NO_BAR_NAME@,
            forall|i: int| 0 <= i < rules@.len() ==> (#[trigger] rules@[i]).wf(),
            k <= rules@.len(),
            scan_rules(rules@, monitors@, init) == scan_rules(rules@.skip(k as int), monitors@, excluded@),
        decreases rules@.len() - k,
    {
        let rule = &rules[k];
        let ghost ex0 = excluded@;
        assert(rules@.skip(k as int)[0] == rules@[k as int]);
        assert(rules@.skip(k as int).drop_first() =~= rules@.skip(k + 1));
        let mut j: usize = 0;
        while j < n
            invariant
                init == Seq::new(monitors@.len(), |i: int| false),
                k < rules@.len(),
                *rule == rules@[k as int],
                rules@.skip(k as int)[0] == *rule,
                rules@.skip(k as int).drop_first() == rules@.skip(k + 1),
                scan_rules(rules@, monitors@, init) == scan_rules(rules@.skip(k as int), monitors@, ex0),
                forall|i: int| 0 <= i < rules@.len() ==> (#[trigger] rules@[i]).wf(),
                n == monitors@.len(),
                excluded@.len() == n,
                none_name@ == NO_BAR_NAME@,
                rule.wf(),
                j <= n,
                scan_rule(*rule, monitors@, 0, ex0) == scan_rule(*rule, monitors@, j as int, excluded@),
            decreases n - j,
        {
            if !excluded[j] && is_rule_match(rule, &monitors[j]) {
                match &rule.bar {
                    Some(name) => {
                        if *name == none_name {
                            excluded.set(j, true);
                        } else {
                            return Some(j);
                        }
                    },
                    None => {},
                }
            }
            j += 1;
        }
        k += 1;
    }
    assert(rules@.skip(k as int) =~= Seq::<MonitorRule>::empty());
    let ghost ex = excluded@;
    assert(scan_rules(rules@, monitors@, init) == (None::<int>, ex));
    let mut j: usize = 0;
    while j < n
        invariant
            scan_rules(rules@, monitors@, Seq::new(monitors@.len(), |i: int| false)) == (None::<int>, ex),
            n == monitors@.len(),
            excluded@ == ex,
            ex.len() == n,
            j <= n,
            first_free(monitors@, ex, 0, true) == first_free(monitors@, ex, j as int, true),
        decreases n - j,
    {
        if !excluded[j] && monitors[j].has_bar {
            return Some(j);
        }
        j += 1;
    }
    let mut j: usize = 0;
    while j < n
        invariant
            scan_rules(rules@, monitors@, Seq::new(monitors@.len(), |i: int| false)) == (None::<int>, ex),
            n == monitors@.len(),
            excluded@ == ex,
            ex.len() == n,
            j <= n,
            first_free(monitors@, ex, 0, true) is None,
            first_free(monitors@, ex, 0, false) == first_free(monitors@, ex, j as int, false),
        decreases n - j,
    {
        if !excluded[j] {
            return Some(j);
        }
        j += 1;
    }
    None
}

/// The bar each monitor shows, by the configuration's mode: the primary bar on
/// every monitor; the primary bar on the primary monitor only; or each
/// monitor's own bar.
pub open spec fn bar_of_monitor(c: Config, mons: Seq<MonitorInfo>, j: int) -> Option<int> {
    match c.mode {
        Mode::Mirror => Some(bar_index(c.bars@, PRIMARY_BAR_NAME@)),
        Mode::Primary => if primary_monitor(c.monitor_rules@, mons) == Some(j) {
            Some(bar_index(c.bars@, PRIMARY_BAR_NAME@))
        } else {
            None
        },
        Mode::PerMonitor => monitor_bar(c.monitor_rules@, c.bars@, mons[j]),
    }
}

/// The bar each of `monitors` shows, as a position among the configured bars,
/// or `None` for no bar.
pub fn assign_bars(config: &Config, monitors: &Vec<MonitorInfo>) -> (r: Vec<Option<usize>>)
    requires
        placeable(*config),
    ensures
        r@.len() == monitors@.len(),
        forall|j: int|
            #![trigger r@[j]]
            0 <= j < monitors@.len() ==> match r@[j] {
                Some(i) => bar_of_monitor(*config, monitors@, j) == Some(i as int),
                None => bar_of_monitor(*config, monitors@, j) is None,
            },
{
    let primary = config.find_bar_index(PRIMARY_BAR_NAME);
    let chosen = match config.mode {
        Mode::Primary => pick_primary_monitor(&config.monitor_rules, monitors),
        _ => None,
    };
    let mut out: Vec<Option<usize>> = Vec::new();
    let mut j: usize = 0;
    while j < monitors.len()
        invariant
            placeable(*config),
            primary == bar_index(config.bars@, PRIMARY_BAR_NAME@),
            config.mode == Mode::Primary ==> match chosen {
                Some(c) => primary_monitor(config.monitor_rules@, monitors@) == Some(c as int),
                None => primary_monitor(config.monitor_rules@, monitors@) is None,
            },
            j <= monitors@.len(),
            out@.len() == j,
            forall|i: int|
                #![trigger out@[i]]
                0 <= i < j ==> match out@[i] {
                    Some(b) => bar_of_monitor(*config, monitors@, i) == Some(b as int),
                    None => bar_of_monitor(*config, monitors@, i) is None,
                },
        decreases monitors@.len() - j,
    {
        let bar = match config.mode {
            Mode::Mirror => Some(primary),
            Mode::Primary => match chosen {
                Some(c) => if c == j {
                    Some(primary)
                } else {
                    None
                },
                None => None,
            },
            Mode::PerMonitor => pick_monitor_config(&monitors[j], config),
        };
        out.push(bar);
        j += 1;
    }
    out
}

/// Whether `regex::Regex::new` accepts `pattern`.
fn pattern_valid(pattern: &String) -> (r: bool)
    ensures
        r == regex_accepts(pattern@),
{
    match compile_regex(pattern.as_str()) {
        Ok(_) => true,
        Err(_) => false,
    }
}

/// The bar each of `monitors` shows, as [`assign_bars`] gives it, or `None`
/// when the configuration cannot place bars: it has no primary bar, or a
/// rule's pattern is not a valid regular expression.
pub fn place_bars(config: &Config, monitors: &Vec<MonitorInfo>) -> (r: Option<Vec<Option<usize>>>)
    ensures
        r is None <==> !placeable(*config),
        r matches Some(v) ==> v@.len() == monitors@.len() && forall|j: int|
            #![trigger v@[j]]
            0 <= j < monitors@.len() ==> match v@[j] {
                Some(i) => bar_of_monitor(*config, monitors@, j) == Some(i as int),
                None => bar_of_monitor(*config, monitors@, j) is None,
            },
{
    if config.find_bar_index(PRIMARY_BAR_NAME) >= config.bars.len() {
        return None;
    }
    let mut k: usize = 0;
    while k < config.monitor_rules.len()
        invariant
            k <= config.monitor_rules@.len(),
            forall|i: int| 0 <= i < k ==> (#[trigger] config.monitor_rules@[i]).wf(),
        decreases config.monitor_rules@.len() - k,
    {
        let rule = &config.monitor_rules[k];
        if !(pattern_valid(&rule.connector) && pattern_valid(&rule.manufacturer) && pattern_valid(
            &rule.model,
        )) {
            assert(!config.monitor_rules@[k as int].wf());
            return None;
        }
        k += 1;
    }
    Some(assign_bars(config, monitors))
}

/// Whether a monitor first seen at `first_seen` has waited too long for its
/// description at `now` (nanoseconds on a monotonic clock).
pub fn metadata_timed_out(first_seen: u64, now: u64) -> (r: bool)
    ensures
        r == (now > first_seen + MONITOR_METADATA_TIMEOUT_NS),
{
    now > first_seen && now - first_seen > MONITOR_METADATA_TIMEOUT_NS
}

} // verus!
