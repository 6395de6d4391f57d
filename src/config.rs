//! The configuration: which bars to show and, on each, which charts of which
//! counters. Reading the TOML text is left to the caller, which hands over a
//! [`TomlConfig`]; this module checks it and fills in the defaults.
use vstd::prelude::*;

use crate::named::{index_of_name, lemma_index_of_name, names_distinct};
use crate::read::ReadError;

verus! {

/// Name of the bar that is always configured.
pub const PRIMARY_BAR_NAME: &'static str = "primary";

/// Reserved name: a monitor rule that names it shows no bar.
pub const NO_BAR_NAME: &'static str = "none";

pub const DEFAULT_WIDTH: u32 = 100;

pub const DEFAULT_CHART_HEIGHT: u32 = 100;

/// Refresh interval when none is configured, in milliseconds.
pub const DEFAULT_INTERVAL_MS: u64 = 1000;

/// Largest configuration file that is read.
pub const MAX_CONFIG_FILE_SIZE: u64 = 50 * 1024 * 1024;

/// How bars are placed on monitors.
#[derive(Debug, Clone, Copy, PartialEq, Eq)]
pub enum Mode {
    /// The primary bar on every monitor.
    Mirror,
    /// The primary bar on one monitor, chosen by the monitor rules.
    Primary,
    /// Each monitor's bar chosen by the monitor rules.
    PerMonitor,
}

/// The screen edge a bar is placed on.
#[derive(Debug, Clone, Copy, PartialEq, Eq)]
pub enum Side {
    Right,
    Left,
    Top,
    Bottom,
}

/// A processor chart.
#[derive(Debug)]
pub struct CpuWidgetConfig {
    pub label: String,
    pub height: u32,
}

/// A chart of one block device's I/O.
#[derive(Debug)]
pub struct DiskIoWidgetConfig {
    pub label: String,
    pub disk: String,
    pub height: u32,
}

/// A chart of one network interface's traffic.
#[derive(Debug)]
pub struct NetWidgetConfig {
    pub label: String,
    pub dev: String,
    pub height: u32,
}

/// A memory chart.
#[derive(Debug)]
pub struct MemWidgetConfig {
    pub label: String,
    pub height: u32,
}

/// One chart of a bar.
#[derive(Debug)]
pub enum WidgetConfig {
    Cpu(CpuWidgetConfig),
    DiskIO(DiskIoWidgetConfig),
    Net(NetWidgetConfig),
    Mem(MemWidgetConfig),
}

/// A monitor rule as written: patterns on the monitor's connector,
/// manufacturer and model (any when absent), and the bar to show there.
#[derive(Debug)]
pub struct TomlMonitorRule {
    pub connector: Option<String>,
    pub manufacturer: Option<String>,
    pub model: Option<String>,
    pub bar: Option<String>,
}

/// A monitor rule whose patterns are known to be valid regular expressions
/// (any text where the file gave none).
#[derive(Debug)]
pub struct MonitorRule {
    pub connector: String,
    pub manufacturer: String,
    pub model: String,
    pub bar: Option<String>,
}

impl MonitorRule {
    /// Every pattern of the rule is a valid regular expression.
    pub open spec fn wf(&self) -> bool {
        &&& regex_accepts(self.connector@)
        &&& regex_accepts(self.manufacturer@)
        &&& regex_accepts(self.model@)
    }
}

/// A bar as written; width and side default to those of the file.
#[derive(Debug)]
pub struct TomlBarConfig {
    pub width: Option<u32>,
    pub side: Option<Side>,
    pub widgets: Vec<WidgetConfig>,
}

/// A bar with its width and side settled.
#[derive(Debug)]
pub struct BarConfig {
    pub width: u32,
    pub side: Side,
    pub widgets: Vec<WidgetConfig>,
}

/// The configuration file as written.
#[derive(Debug)]
pub struct TomlConfig {
    pub mode: Mode,
    /// Refresh interval, in milliseconds.
    pub interval_ms: u64,
    pub width: u32,
    pub side: Side,
    pub monitor_rules: Vec<TomlMonitorRule>,
    /// The bars, by name.
    pub bars: Vec<(String, TomlBarConfig)>,
    /// Charts of the primary bar given at the top level of the file.
    pub widgets: Vec<WidgetConfig>,
}

/// The checked configuration.
#[derive(Debug)]
pub struct Config {
    pub mode: Mode,
    /// Refresh interval, in milliseconds.
    pub interval_ms: u64,
    pub monitor_rules: Vec<MonitorRule>,
    /// The bars, by name; one of them is the primary bar.
    pub bars: Vec<(String, BarConfig)>,
}

#[verifier::external_type_specification]
#[verifier::external_body]
pub struct ExRegex(regex::Regex);

#[verifier::external_type_specification]
#[verifier::external_body]
pub struct ExRegexError(regex::Error);

/// Why a configuration is refused.
#[derive(Debug)]
pub enum ConfigError {
    /// Primary-bar charts are given both at the top level and in the
    /// primary bar's own table.
    BothWidgetStyles,
    /// A bar is named with the reserved name.
    ReservedBarName,
    /// A monitor rule names a bar that does not exist.
    UnknownBarName(String),
    /// A monitor rule's pattern is not a valid regular expression.
    InvalidRegex(regex::Error),
    /// The configuration file is larger than allowed.
    TooLarge,
    /// The configuration file could not be read.
    Io(String),
}

/// Whether `regex::Regex::new` accepts the pattern: it is well formed and
/// compiles within the default size limit.
pub uninterp spec fn regex_accepts(pattern: Seq<char>) -> bool;

/// Relies on `regex::Regex::new`: it fails exactly on the patterns that it
/// does not accept, which depends on the pattern alone.
#[verifier::external_body]
pub(crate) fn compile_regex(pattern: &str) -> (r: Result<regex::Regex, regex::Error>)
    ensures
        r is Ok <==> regex_accepts(pattern@),
{
    regex::Regex::new(pattern)
}

pub fn default_mode() -> (r: Mode)
    ensures
        r == Mode::Mirror,
{
    Mode::Mirror
}

pub fn default_interval() -> (r: u64)
    ensures
        r == DEFAULT_INTERVAL_MS,
{
    DEFAULT_INTERVAL_MS
}

pub fn default_width() -> (r: u32)
    ensures
        r == DEFAULT_WIDTH,
{
    DEFAULT_WIDTH
}

pub fn default_side() -> (r: Side)
    ensures
        r == Side::Right,
{
    Side::Right
}

pub fn default_chart_height() -> (r: u32)
    ensures
        r == DEFAULT_CHART_HEIGHT,
{
    DEFAULT_CHART_HEIGHT
}

/// The charts of a bar that is configured with none: processor and memory.
pub open spec fn is_default_widgets(ws: Seq<WidgetConfig>) -> bool {
    &&& ws.len() == 2
    &&& ws[0] matches WidgetConfig::Cpu(c) && c.label@ == "CPU"@ && c.height == DEFAULT_CHART_HEIGHT
    &&& ws[1] matches WidgetConfig::Mem(m) && m.label@ == "Memory"@ && m.height
        == DEFAULT_CHART_HEIGHT
}

/// A processor chart and a memory chart, so that a bar is not empty when the
/// file configures none.
pub fn default_widgets() -> (r: Vec<WidgetConfig>)
    ensures
        is_default_widgets(r@),
{
    let mut v: Vec<WidgetConfig> = Vec::new();
    v.push(
        WidgetConfig::Cpu(
            CpuWidgetConfig { label: "CPU".to_string(), height: default_chart_height() },
        ),
    );
    v.push(
        WidgetConfig::Mem(
            MemWidgetConfig { label: "Memory".to_string(), height: default_chart_height() },
        ),
    );
    v
}

/// The contents of a configuration file that could not be read: a missing
/// file reads as empty, a file over the size limit or another failure is an
/// error.
pub fn read_config_contents(read: Result<String, ReadError>) -> (r: Result<String, ConfigError>)
    ensures
        match read {
            Ok(s) => r matches Ok(t) && t@ == s@,
            Err(ReadError::NotFound) => r matches Ok(t) && t@.len() == 0,
            Err(ReadError::TooLarge) => r matches Err(ConfigError::TooLarge),
            Err(ReadError::Other(e)) => r matches Err(ConfigError::Io(m)) && m@ == e@,
        },
{
    match read {
        Ok(s) => Ok(s),
        Err(ReadError::NotFound) => Ok(String::new()),
        Err(ReadError::TooLarge) => Err(ConfigError::TooLarge),
        Err(ReadError::Other(e)) => Err(ConfigError::Io(e)),
    }
}

impl TomlBarConfig {
    /// Settles the width and side, taking the file's for those not given.
    pub fn to_config(self, default_width: u32, default_side: Side) -> (r: BarConfig)
        ensures
            r.width == match self.width {
                Some(w) => w,
                None => default_width,
            },
            r.side == match self.side {
                Some(s) => s,
                None => default_side,
            },
            r.widgets@ == self.widgets@,
    {
        BarConfig {
            width: match self.width {
                Some(w) => w,
                None => default_width,
            },
            side: match self.side {
                Some(s) => s,
                None => default_side,
            },
            widgets: self.widgets,
        }
    }
}

/// The bars with their names as character sequences.
pub open spec fn bar_views<V>(bars: Seq<(String, V)>) -> Seq<(Seq<char>, V)> {
    bars.map_values(|b: (String, V)| (b.0@, b.1))
}

/// Position of the bar named `name`, or the number of bars.
pub open spec fn bar_index<V>(bars: Seq<(String, V)>, name: Seq<char>) -> int {
    index_of_name(bar_views(bars), name)
}

/// `o`, or `d` when absent.
pub open spec fn or_default<T>(o: Option<T>, d: T) -> T {
    match o {
        Some(v) => v,
        None => d,
    }
}

/// The charts of bar `i` of the file once the top-level charts are given to
/// the primary bar.
pub open spec fn merged_widgets(c: TomlConfig, i: int) -> Seq<WidgetConfig> {
    if i == bar_index(c.bars@, PRIMARY_BAR_NAME@) && c.widgets@.len() > 0 {
        c.widgets@
    } else {
        c.bars@[i].1.widgets@
    }
}

/// `out` is the bars of `c` with width and side settled, the top-level charts
/// given to the primary bar, and a primary bar added at the end when `c` has
/// none: with the top-level charts, or with the default ones if there are none.
pub open spec fn bars_settled(c: TomlConfig, out: Seq<(String, BarConfig)>) -> bool {
    let n = c.bars@.len();
    let has_primary = bar_index(c.bars@, PRIMARY_BAR_NAME@) < n;
    &&& out.len() == if has_primary {
        n as int
    } else {
        n + 1 as int
    }
    &&& forall|i: int|
        #![trigger out[i]]
        0 <= i < n ==> {
            &&& out[i].0 == c.bars@[i].0
            &&& out[i].1.width == or_default(c.bars@[i].1.width, c.width)
            &&& out[i].1.side == or_default(c.bars@[i].1.side, c.side)
            &&& out[i].1.widgets@ == merged_widgets(c, i)
        }
    &&& !has_primary ==> {
        &&& out[n as int].0@ == PRIMARY_BAR_NAME@
        &&& out[n as int].1.width == c.width
        &&& out[n as int].1.side == c.side
        &&& if c.widgets@.len() > 0 {
            out[n as int].1.widgets@ == c.widgets@
        } else {
            is_default_widgets(out[n as int].1.widgets@)
        }
    }
}

/// The pattern of a rule's field: any text when absent.
pub open spec fn pattern_of(o: Option<String>) -> Seq<char> {
    match o {
        Some(s) => s@,
        None => ".*"@,
    }
}

/// Why a monitor rule is refused.
pub enum RuleFailure {
    UnknownBar(Seq<char>),
    BadPattern,
}

/// Whether a rule may name the bar `b` when the file's bars are `bars`.
pub open spec fn bar_name_known(bars: Seq<(String, TomlBarConfig)>, b: Seq<char>) -> bool {
    b == NO_BAR_NAME@ || b == PRIMARY_BAR_NAME@ || bar_index(bars, b) < bars.len()
}

/// What is wrong with a monitor rule, checked in order: its bar name, then
/// its connector, manufacturer and model patterns.
pub open spec fn rule_failure(bars: Seq<(String, TomlBarConfig)>, r: TomlMonitorRule) -> Option<RuleFailure> {
    if r.bar matches Some(b) && !bar_name_known(bars, b@) {
        Some(RuleFailure::UnknownBar(r.bar->Some_0@))
    } else if !regex_accepts(pattern_of(r.connector)) || !regex_accepts(pattern_of(r.manufacturer))
        || !regex_accepts(pattern_of(r.model)) {
        Some(RuleFailure::BadPattern)
    } else {
        None
    }
}

/// The failure of the first refused rule among `rules`, if any.
pub open spec fn rules_failure(bars: Seq<(String, TomlBarConfig)>, rules: Seq<TomlMonitorRule>) -> Option<RuleFailure>
    decreases rules.len(),
{
    if rules.len() == 0 {
        None
    } else {
        match rule_failure(bars, rules[0]) {
            Some(f) => Some(f),
            None => rules_failure(bars, rules.drop_first()),
        }
    }
}

/// `out` is `rules` checked, in order, each with its patterns (any text
/// where none was given) and its bar name.
pub open spec fn rules_compiled(rules: Seq<TomlMonitorRule>, out: Seq<MonitorRule>) -> bool {
    &&& out.len() == rules.len()
    &&& forall|i: int|
        #![trigger out[i]]
        0 <= i < rules.len() ==> {
            &&& out[i].bar == rules[i].bar
            &&& out[i].connector@ == pattern_of(rules[i].connector)
            &&& out[i].manufacturer@ == pattern_of(rules[i].manufacturer)
            &&& out[i].model@ == pattern_of(rules[i].model)
            &&& out[i].wf()
        }
}

/// The configuration can place bars: it has a primary bar and its rules'
/// patterns are valid.
pub open spec fn placeable(c: Config) -> bool {
    &&& bar_index(c.bars@, PRIMARY_BAR_NAME@) < c.bars@.len()
    &&& forall|i: int| 0 <= i < c.monitor_rules@.len() ==> (#[trigger] c.monitor_rules@[i]).wf()
}

/// A bar list in which some bar is named `name` gives it a position.
proof fn lemma_bar_index_found<V>(bars: Seq<(String, V)>, name: Seq<char>, j: int)
    requires
        0 <= j < bars.len(),
        bars[j].0@ == name,
    ensures
        bar_index(bars, name) <= j,
{
    lemma_index_of_name(bar_views(bars), name);
    assert(bar_views(bars)[j].0 == name);
}

impl TomlConfig {
    /// Checks the configuration and settles its defaults. Refused, in this
    /// order: primary-bar charts given in both places; a bar with the reserved
    /// name; the first monitor rule that names an unknown bar or has an
    /// invalid pattern.
    pub fn to_config(self) -> (r: Result<Config, ConfigError>)
        requires
            names_distinct(bar_views(self.bars@)),
        ensures
            ({
                let p = bar_index(self.bars@, PRIMARY_BAR_NAME@);
                if p < self.bars@.len() && self.widgets@.len() > 0
                    && self.bars@[p].1.widgets@.len() > 0 {
                    r matches Err(ConfigError::BothWidgetStyles)
                } else if bar_index(self.bars@, NO_BAR_NAME@) < self.bars@.len() {
                    r matches Err(ConfigError::ReservedBarName)
                } else {
                    match rules_failure(self.bars@, self.monitor_rules@) {
                        Some(RuleFailure::UnknownBar(b)) => r matches Err(
                            ConfigError::UnknownBarName(m),
                        ) && m@ == b,
                        Some(RuleFailure::BadPattern) => r matches Err(ConfigError::InvalidRegex(_)),
                        None => r matches Ok(c) && c.mode == self.mode && c.interval_ms
                            == self.interval_ms && bars_settled(self, c.bars@) && rules_compiled(
                            self.monitor_rules@,
                            c.monitor_rules@,
                        ) && placeable(c),
                    }
                }
            }),
    {
        let ghost c0 = self;
        let TomlConfig { mode, interval_ms, width, side, monitor_rules, bars, widgets } = self;
        let n = bars.len();
        let p = find_bar(&bars, PRIMARY_BAR_NAME);
        if p < n && widgets.len() > 0 && bars[p].1.widgets.len() > 0 {
            return Err(ConfigError::BothWidgetStyles);
        }
        let none_index = find_bar(&bars, NO_BAR_NAME);
        if none_index < n {
            return Err(ConfigError::ReservedBarName);
        }
        let mut out: Vec<(String, BarConfig)> = Vec::new();
        let mut rest = bars;
        let mut top = Some(widgets);
        let mut i: usize = 0;
        while i < n
            invariant
                c0.bars@.len() == n,
                p == bar_index(c0.bars@, PRIMARY_BAR_NAME@),
                c0.width == width,
                c0.side == side,
                p < n ==> (c0.widgets@.len() == 0 || c0.bars@[p as int].1.widgets@.len() == 0),
                i <= n,
                rest@ == c0.bars@.subrange(i as int, n as int),
                out@.len() == i,
                (p < i && c0.widgets@.len() > 0) <==> top is None,
                top matches Some(w) ==> w@ == c0.widgets@,
                forall|k: int|
                    #![trigger out@[k]]
                    0 <= k < i ==> {
                        &&& out@[k].0 == c0.bars@[k].0
                        &&& out@[k].1.width == or_default(c0.bars@[k].1.width, c0.width)
                        &&& out@[k].1.side == or_default(c0.bars@[k].1.side, c0.side)
                        &&& out@[k].1.widgets@ == merged_widgets(c0, k)
                    },
            decreases n - i,
        {
            let ghost before = rest@;
            let (name, mut bc) = rest.remove(0);
            assert(rest@ =~= c0.bars@.subrange(i + 1, n as int));
            assert(before[0] == c0.bars@[i as int]);
            if i == p {
                let take = match &top {
                    Some(w) => w.len() > 0,
                    None => false,
                };
                if take {
                    match top {
                        Some(w) => {
                            bc.widgets = w;
                        },
                        None => {},
                    }
                    top = None;
                }
            }
            out.push((name, bc.to_config(width, side)));
            i += 1;
        }
        if p >= n {
            let ws = match top {
                Some(w) => if w.len() > 0 {
                    w
                } else {
                    default_widgets()
                },
                None => default_widgets(),
            };
            out.push((PRIMARY_BAR_NAME.to_string(), BarConfig { width, side, widgets: ws }));
        }
        proof {
            if p < n {
                assert(bar_views(c0.bars@)[p as int].0 == PRIMARY_BAR_NAME@) by {
                    lemma_index_of_name(bar_views(c0.bars@), PRIMARY_BAR_NAME@);
                }
                lemma_bar_index_found(out@, PRIMARY_BAR_NAME@, p as int);
            } else {
                lemma_bar_index_found(out@, PRIMARY_BAR_NAME@, n as int);
            }
        }
        let rules = convert_monitor_rules(monitor_rules, &out, Ghost(c0.bars@))?;
        Ok(Config { mode, interval_ms, monitor_rules: rules, bars: out })
    }
}

impl Config {
    /// Position of the bar named `name`, or the number of bars.
    pub fn find_bar_index(&self, name: &str) -> (r: usize)
        ensures
            r == bar_index(self.bars@, name@),
            r <= self.bars@.len(),
    {
        find_bar(&self.bars, name)
    }

    /// The primary bar.
    pub fn primary_bar(&self) -> (r: Option<&BarConfig>)
        ensures
            match r {
                Some(b) => bar_index(self.bars@, PRIMARY_BAR_NAME@) < self.bars@.len() && *b
                    == self.bars@[bar_index(self.bars@, PRIMARY_BAR_NAME@)].1,
                None => bar_index(self.bars@, PRIMARY_BAR_NAME@) == self.bars@.len(),
            },
    {
        let i = find_bar(&self.bars, PRIMARY_BAR_NAME);
        if i < self.bars.len() {
            Some(&self.bars[i].1)
        } else {
            None
        }
    }
}

/// Position of the bar named `name`, or the number of bars.
fn find_bar<V>(bars: &Vec<(String, V)>, name: &str) -> (r: usize)
    ensures
        r == bar_index(bars@, name@),
        r <= bars@.len(),
{
    let key = name.to_string();
    let ghost views = bar_views(bars@);
    proof {
        lemma_index_of_name(views, name@);
    }
    let mut i: usize = 0;
    while i < bars.len()
        invariant
            views == bar_views(bars@),
            key@ == name@,
            i <= bars@.len(),
            forall|k: int| 0 <= k < i ==> views[k].0 != name@,
            0 <= index_of_name(views, name@) <= views.len(),
            index_of_name(views, name@) < views.len() ==> views[index_of_name(views, name@)].0
                == name@,
            forall|k: int| 0 <= k < index_of_name(views, name@) ==> views[k].0 != name@,
        decreases bars@.len() - i,
    {
        if bars[i].0 == key {
            assert(views[i as int].0 == name@);
            return i;
        }
        i += 1;
    }
    i
}

/// Compiles the monitor rules, in order; `file_bars` are the bars of the file,
/// of which `bars` are the settled form.
fn convert_monitor_rules(
    toml_rules: Vec<TomlMonitorRule>,
    bars: &Vec<(String, BarConfig)>,
    file_bars: Ghost<Seq<(String, TomlBarConfig)>>,
) -> (r: Result<Vec<MonitorRule>, ConfigError>)
    requires
        bars@.len() >= file_bars@.len(),
        forall|k: int| #![trigger bars@[k]] 0 <= k < file_bars@.len() ==> bars@[k].0 == file_bars@[k].0,
        forall|k: int| #![trigger bars@[k]] file_bars@.len() <= k < bars@.len() ==> bars@[k].0@ == PRIMARY_BAR_NAME@,
    ensures
        match rules_failure(file_bars@, toml_rules@) {
            Some(RuleFailure::UnknownBar(b)) => r matches Err(ConfigError::UnknownBarName(m)) && m@
                == b,
            Some(RuleFailure::BadPattern) => r matches Err(ConfigError::InvalidRegex(_)),
            None => r matches Ok(v) && rules_compiled(toml_rules@, v@),
        },
{
    let ghost all = toml_rules@;
    let mut rest = toml_rules;
    let mut result: Vec<MonitorRule> = Vec::new();
    let n = rest.len();
    let mut i: usize = 0;
    let none_name = NO_BAR_NAME.to_string();
    let primary_name = PRIMARY_BAR_NAME.to_string();
    assert(all.subrange(0, n as int) =~= all);
    while i < n
        invariant
            all == toml_rules@,
            n == all.len(),
            i <= n,
            none_name@ == NO_BAR_NAME@,
            primary_name@ == PRIMARY_BAR_NAME@,
            rest@ == all.subrange(i as int, n as int),
            rules_failure(file_bars@, all) == rules_failure(file_bars@, rest@),
            result@.len() == i,
            forall|k: int|
                #![trigger result@[k]]
                0 <= k < i ==> {
                    &&& result@[k].bar == all[k].bar
                    &&& result@[k].connector@ == pattern_of(all[k].connector)
                    &&& result@[k].manufacturer@ == pattern_of(all[k].manufacturer)
                    &&& result@[k].model@ == pattern_of(all[k].model)
                    &&& result@[k].wf()
                },
            bars@.len() >= file_bars@.len(),
            forall|k: int| #![trigger bars@[k]] 0 <= k < file_bars@.len() ==> bars@[k].0 == file_bars@[k].0,
            forall|k: int| #![trigger bars@[k]] file_bars@.len() <= k < bars@.len() ==> bars@[k].0@ == PRIMARY_BAR_NAME@,
        decreases n - i,
    {
        let ghost before = rest@;
        let rule = rest.remove(0);
        assert(before.drop_first() =~= rest@);
        assert(before[0] == all[i as int]);
        assert(rules_failure(file_bars@, before) == match rule_failure(file_bars@, rule) {
            Some(x) => Some(x),
            None => rules_failure(file_bars@, rest@),
        });
        if let Some(bar_name) = &rule.bar {
            let is_none = *bar_name == none_name;
            let is_primary = *bar_name == primary_name;
            if !is_none && !is_primary {
                let k = find_bar(bars, bar_name.as_str());
                proof {
                    lemma_bar_index_prefix(*bars, file_bars@, bar_name@);
                }
                if k >= bars.len() {
                    assert(rule_failure(file_bars@, rule) == Some(RuleFailure::UnknownBar(bar_name@)));
                    return Err(ConfigError::UnknownBarName(bar_name.clone()));
                }
            }
        }
        assert(!(rule.bar matches Some(b) && !bar_name_known(file_bars@, b@)));
        let connector = compile_pattern(&rule.connector)?;
        let manufacturer = compile_pattern(&rule.manufacturer)?;
        let model = compile_pattern(&rule.model)?;
        assert(rule_failure(file_bars@, rule) is None);
        result.push(MonitorRule { connector, manufacturer, model, bar: rule.bar });
        i += 1;
    }
    Ok(result)
}

/// A name other than the primary bar's is among `bars` exactly when it is
/// among the file's bars, of which `bars` extend the names.
proof fn lemma_bar_index_prefix(
    bars: Vec<(String, BarConfig)>,
    file_bars: Seq<(String, TomlBarConfig)>,
    name: Seq<char>,
)
    requires
        name != PRIMARY_BAR_NAME@,
        bars@.len() >= file_bars.len(),
        forall|k: int| #![trigger bars@[k]] 0 <= k < file_bars.len() ==> bars@[k].0 == file_bars[k].0,
        forall|k: int| #![trigger bars@[k]] file_bars.len() <= k < bars@.len() ==> bars@[k].0@ == PRIMARY_BAR_NAME@,
    ensures
        (bar_index(bars@, name) < bars@.len()) == (bar_index(file_bars, name) < file_bars.len()),
{
    lemma_index_of_name(bar_views(bars@), name);
    lemma_index_of_name(bar_views(file_bars), name);
    let i = bar_index(bars@, name);
    let j = bar_index(file_bars, name);
    if i < bars@.len() {
        assert(bar_views(bars@)[i].0 == name);
        assert(i < file_bars.len());
        assert(bar_views(file_bars)[i].0 == name);
    }
    if j < file_bars.len() {
        assert(bar_views(file_bars)[j].0 == name);
        assert(bar_views(bars@)[j].0 == name);
    }
}

/// Checks a rule's pattern, any text when absent, and returns it.
fn compile_pattern(p: &Option<String>) -> (r: Result<String, ConfigError>)
    ensures
        r is Ok <==> regex_accepts(pattern_of(*p)),
        r matches Ok(s) ==> s@ == pattern_of(*p),
        r is Err ==> r matches Err(ConfigError::InvalidRegex(_)),
{
    let pattern = match p {
        Some(s) => s.clone(),
        None => ".*".to_string(),
    };
    match compile_regex(pattern.as_str()) {
        Ok(_) => Ok(pattern),
        Err(e) => Err(ConfigError::InvalidRegex(e)),
    }
}

} // verus!
