use waymon::config::{
    CpuWidgetConfig, Mode, Side, TomlBarConfig, TomlConfig, TomlMonitorRule, WidgetConfig,
};
use waymon::placement::{
    assign_bars, is_rule_match, place_bars, metadata_timed_out, pick_monitor_config, pick_primary_monitor,
    MonitorInfo,
};

fn monitor(connector: &str, model: &str, has_bar: bool) -> MonitorInfo {
    MonitorInfo {
        connector: connector.to_string(),
        manufacturer: "Acme".to_string(),
        model: model.to_string(),
        has_bar,
    }
}

fn rule(bar: Option<&str>, connector: Option<&str>) -> TomlMonitorRule {
    TomlMonitorRule {
        connector: connector.map(|s| s.to_string()),
        manufacturer: None,
        model: None,
        bar: bar.map(|s| s.to_string()),
    }
}

fn config(mode: Mode, rules: Vec<TomlMonitorRule>) -> waymon::config::Config {
    TomlConfig {
        mode,
        interval_ms: 1000,
        width: 100,
        side: Side::Right,
        monitor_rules: rules,
        bars: vec![(
            "side".to_string(),
            TomlBarConfig {
                width: None,
                side: None,
                widgets: vec![WidgetConfig::Cpu(CpuWidgetConfig { label: "c".to_string(), height: 10 })],
            },
        )],
        widgets: Vec::new(),
    }
    .to_config()
    .expect("valid")
}

#[test]
fn rule_matching_uses_all_three_patterns() {
    let c = config(Mode::PerMonitor, vec![rule(Some("side"), Some("^DP-"))]);
    assert!(is_rule_match(&c.monitor_rules[0], &monitor("DP-1", "X", false)));
    assert!(!is_rule_match(&c.monitor_rules[0], &monitor("HDMI-1", "X", false)));
}

#[test]
fn per_monitor_bars_follow_first_matching_rule() {
    let c = config(
        Mode::PerMonitor,
        vec![rule(Some("none"), Some("^eDP")), rule(Some("side"), Some("^DP-")), rule(None, Some("HDMI"))],
    );
    let side = c.find_bar_index("side");
    let primary = c.find_bar_index("primary");
    assert_eq!(pick_monitor_config(&monitor("eDP-1", "X", false), &c), None);
    assert_eq!(pick_monitor_config(&monitor("DP-2", "X", false), &c), Some(side));
    assert_eq!(pick_monitor_config(&monitor("HDMI-A-1", "X", false), &c), Some(primary));
    assert_eq!(pick_monitor_config(&monitor("VGA-1", "X", false), &c), Some(primary));
}

#[test]
fn primary_monitor_choice() {
    let c = config(Mode::Primary, vec![rule(Some("none"), Some("^eDP")), rule(Some("primary"), Some("^DP-2"))]);
    let mons = vec![monitor("eDP-1", "X", true), monitor("DP-1", "X", false), monitor("DP-2", "X", false)];
    assert_eq!(pick_primary_monitor(&c.monitor_rules, &mons), Some(2));
    // Without a chosen monitor, one that shows a bar keeps it, unless excluded.
    let mons = vec![monitor("eDP-1", "X", true), monitor("DP-1", "X", false), monitor("DP-3", "X", true)];
    assert_eq!(pick_primary_monitor(&c.monitor_rules, &mons), Some(2));
    let mons = vec![monitor("eDP-1", "X", true), monitor("DP-1", "X", false)];
    assert_eq!(pick_primary_monitor(&c.monitor_rules, &mons), Some(1));
    let mons = vec![monitor("eDP-1", "X", true)];
    assert_eq!(pick_primary_monitor(&c.monitor_rules, &mons), None);
    let primary = c.find_bar_index("primary");
    let mons = vec![monitor("eDP-1", "X", true), monitor("DP-2", "X", false)];
    assert_eq!(assign_bars(&c, &mons), vec![None, Some(primary)]);
}

#[test]
fn mirrored_bars_on_every_monitor() {
    let c = config(Mode::Mirror, Vec::new());
    let primary = c.find_bar_index("primary");
    let mons = vec![monitor("A", "X", false), monitor("B", "Y", true)];
    assert_eq!(assign_bars(&c, &mons), vec![Some(primary), Some(primary)]);
}

#[test]
fn metadata_timeout_after_five_seconds() {
    assert!(!metadata_timed_out(1_000, 5_000_001_000));
    assert!(metadata_timed_out(1_000, 5_000_001_001));
    assert!(!metadata_timed_out(9_000, 1_000));
}

#[test]
fn place_bars_checks_the_configuration() {
    let c = config(Mode::Mirror, Vec::new());
    let primary = c.find_bar_index("primary");
    let mons = vec![monitor("A", "X", false)];
    assert_eq!(place_bars(&c, &mons), Some(vec![Some(primary)]));
    let mut bad = config(Mode::PerMonitor, Vec::new());
    bad.monitor_rules.push(waymon::config::MonitorRule {
        connector: "(".to_string(),
        manufacturer: ".*".to_string(),
        model: ".*".to_string(),
        bar: None,
    });
    assert_eq!(place_bars(&bad, &mons), None);
    let mut no_primary = config(Mode::Mirror, Vec::new());
    no_primary.bars.retain(|b| b.0 != "primary");
    assert_eq!(place_bars(&no_primary, &mons), None);
}
