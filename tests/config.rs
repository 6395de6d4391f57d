use waymon::config::{
    default_chart_height, default_interval, default_mode, default_side, default_width,
    default_widgets, read_config_contents, ConfigError, CpuWidgetConfig, Mode, Side,
    TomlBarConfig, TomlConfig, TomlMonitorRule, WidgetConfig,
};
use waymon::read::ReadError;

fn empty_config() -> TomlConfig {
    TomlConfig {
        mode: default_mode(),
        interval_ms: default_interval(),
        width: default_width(),
        side: default_side(),
        monitor_rules: Vec::new(),
        bars: Vec::new(),
        widgets: Vec::new(),
    }
}

fn cpu(label: &str) -> WidgetConfig {
    WidgetConfig::Cpu(CpuWidgetConfig { label: label.to_string(), height: 50 })
}

fn bar(widgets: Vec<WidgetConfig>) -> TomlBarConfig {
    TomlBarConfig { width: None, side: None, widgets }
}

fn rule(bar: Option<&str>, connector: Option<&str>) -> TomlMonitorRule {
    TomlMonitorRule {
        connector: connector.map(|s| s.to_string()),
        manufacturer: None,
        model: None,
        bar: bar.map(|s| s.to_string()),
    }
}

#[test]
fn config_defaults() {
    assert_eq!(default_mode(), Mode::Mirror);
    assert_eq!(default_side(), Side::Right);
    assert_eq!(default_width(), 100);
    assert_eq!(default_chart_height(), 100);
    assert_eq!(default_interval(), 1000);
    let w = default_widgets();
    assert_eq!(w.len(), 2);
    assert!(matches!(&w[0], WidgetConfig::Cpu(c) if c.label == "CPU"));
    assert!(matches!(&w[1], WidgetConfig::Mem(m) if m.label == "Memory"));
}

#[test]
fn empty_config_gets_default_primary_bar() {
    let c = empty_config().to_config().expect("valid");
    assert_eq!(c.bars.len(), 1);
    assert_eq!(c.bars[0].0, "primary");
    let p = c.primary_bar().expect("primary");
    assert_eq!(p.width, 100);
    assert_eq!(p.side, Side::Right);
    assert_eq!(p.widgets.len(), 2);
}

#[test]
fn top_level_widgets_go_to_primary_bar() {
    let mut t = empty_config();
    t.widgets = vec![cpu("a")];
    t.bars = vec![("primary".to_string(), TomlBarConfig { width: Some(7), side: Some(Side::Left), widgets: Vec::new() })];
    let c = t.to_config().expect("valid");
    let p = c.primary_bar().expect("primary");
    assert_eq!(p.width, 7);
    assert_eq!(p.side, Side::Left);
    assert!(matches!(&p.widgets[0], WidgetConfig::Cpu(c) if c.label == "a"));
}

#[test]
fn widgets_in_both_places_are_refused() {
    let mut t = empty_config();
    t.widgets = vec![cpu("a")];
    t.bars = vec![("primary".to_string(), bar(vec![cpu("b")]))];
    assert!(matches!(t.to_config(), Err(ConfigError::BothWidgetStyles)));
}

#[test]
fn reserved_bar_name_is_refused() {
    let mut t = empty_config();
    t.bars = vec![("none".to_string(), bar(Vec::new()))];
    assert!(matches!(t.to_config(), Err(ConfigError::ReservedBarName)));
}

#[test]
fn monitor_rules_are_checked() {
    let mut t = empty_config();
    t.bars = vec![("side".to_string(), bar(vec![cpu("x")]))];
    t.monitor_rules = vec![rule(Some("side"), Some("DP-.*")), rule(Some("none"), None), rule(Some("primary"), None)];
    let c = t.to_config().expect("valid");
    assert_eq!(c.monitor_rules.len(), 3);
    assert_eq!(c.monitor_rules[0].connector, "DP-.*");
    assert_eq!(c.monitor_rules[1].connector, ".*");
    assert_eq!(c.bars.len(), 2);

    let mut t = empty_config();
    t.monitor_rules = vec![rule(Some("missing"), None)];
    assert!(matches!(t.to_config(), Err(ConfigError::UnknownBarName(n)) if n == "missing"));

    let mut t = empty_config();
    t.monitor_rules = vec![rule(None, Some("foo(bar"))];
    assert!(matches!(t.to_config(), Err(ConfigError::InvalidRegex(_))));
}

#[test]
fn missing_config_file_reads_as_empty() {
    assert_eq!(read_config_contents(Err(ReadError::NotFound)).expect("empty"), "");
    assert!(matches!(read_config_contents(Err(ReadError::TooLarge)), Err(ConfigError::TooLarge)));
    assert!(matches!(read_config_contents(Err(ReadError::Other("denied".to_string()))), Err(ConfigError::Io(m)) if m == "denied"));
    assert_eq!(read_config_contents(Ok("x = 1".to_string())).expect("text"), "x = 1");
}
