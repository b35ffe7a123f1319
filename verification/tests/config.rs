use mnemnk_application::agent::ApplicationAgent;
use mnemnk_application::args::Args;
use mnemnk_application::config::{
    default_ignore, AgentConfig, ConfigError, ConfigField, ConfigOverride, Platform, Setting,
    DEFAULT_INTERVAL,
};
use mnemnk_application::loader::{parse_override, read_names, read_override};
use mnemnk_application::startup::{launch, load_config};

fn names(list: &[&str]) -> Vec<String> {
    list.iter().map(|n| n.to_string()).collect()
}

fn value(text: &str) -> serde_json::Value {
    serde_json::from_str(text).unwrap()
}

#[test]
fn default_ignore_by_platform() {
    assert_eq!(default_ignore(Platform::Linux), Vec::<String>::new());
    assert_eq!(default_ignore(Platform::MacOs), names(&["scrnsave.scr"]));
    assert_eq!(default_ignore(Platform::Windows), names(&["LockApp.exe"]));
}

#[test]
fn default_config_by_platform() {
    assert_eq!(DEFAULT_INTERVAL, 10);
    let linux = AgentConfig::default_for(Platform::Linux);
    assert_eq!(linux.interval(), 10);
    assert_eq!(linux.ignore(), &Vec::<String>::new());
    let windows = AgentConfig::default_for(Platform::Windows);
    assert_eq!(windows.interval(), 10);
    assert_eq!(windows.ignore(), &names(&["LockApp.exe"]));
    assert!(windows.ignores("LockApp.exe"));
    assert!(!windows.ignores("lockapp.exe"));
    assert!(!windows.ignores("scrnsave.scr"));
}

#[test]
fn new_config_needs_a_positive_interval() {
    assert!(AgentConfig::new(0, vec![]).is_none());
    let c = AgentConfig::new(1, names(&["a", "b"])).unwrap();
    assert_eq!(c.interval(), 1);
    assert_eq!(c.ignore(), &names(&["a", "b"]));
    assert!(c.ignores("a"));
    assert!(c.ignores("b"));
    assert!(!c.ignores("c"));
    assert!(!c.ignores(""));
}

#[test]
fn override_replaces_both_fields() {
    let loaded =
        AgentConfig::from_override("{\"interval\": 30, \"ignore\": [\"a\", \"b\"]}", Platform::Windows);
    assert_eq!(loaded.config.interval(), 30);
    assert_eq!(loaded.config.ignore(), &names(&["a", "b"]));
    assert!(loaded.errors.is_empty());
}

#[test]
fn override_replaces_only_the_fields_it_names() {
    let only_interval = AgentConfig::from_override("{\"interval\": 3}", Platform::Windows);
    assert_eq!(only_interval.config.interval(), 3);
    assert_eq!(only_interval.config.ignore(), &names(&["LockApp.exe"]));
    assert!(only_interval.errors.is_empty());

    let only_ignore = AgentConfig::from_override("{\"ignore\": []}", Platform::Windows);
    assert_eq!(only_ignore.config.interval(), 10);
    assert_eq!(only_ignore.config.ignore(), &Vec::<String>::new());
    assert!(only_ignore.errors.is_empty());

    let neither = AgentConfig::from_override("{\"other\": 1}", Platform::MacOs);
    assert_eq!(neither.config.interval(), 10);
    assert_eq!(neither.config.ignore(), &names(&["scrnsave.scr"]));
    assert!(neither.errors.is_empty());
}

#[test]
fn text_that_is_no_object_gives_defaults_silently() {
    for text in ["", "not json", "{", "[1, 2]", "5", "\"interval\"", "null", "true", "{\"interval\": 5} x"] {
        let loaded = AgentConfig::from_override(text, Platform::MacOs);
        assert_eq!(loaded.config.interval(), 10);
        assert_eq!(loaded.config.ignore(), &names(&["scrnsave.scr"]));
        assert!(loaded.errors.is_empty());
    }
}

#[test]
fn malformed_interval_falls_back_with_an_error() {
    for text in [
        "{\"interval\": \"30\"}",
        "{\"interval\": -5}",
        "{\"interval\": 2.5}",
        "{\"interval\": null}",
        "{\"interval\": [30]}",
        "{\"interval\": 0}",
        "{\"interval\": 18446744073709551616}",
    ] {
        let loaded = AgentConfig::from_override(text, Platform::Linux);
        assert_eq!(loaded.config.interval(), 10);
        assert_eq!(loaded.errors, vec![ConfigError::ConfigParse(ConfigField::Interval)]);
    }
}

#[test]
fn largest_interval_is_accepted() {
    let loaded = AgentConfig::from_override("{\"interval\": 18446744073709551615}", Platform::Linux);
    assert_eq!(loaded.config.interval(), u64::MAX);
    assert!(loaded.errors.is_empty());
}

#[test]
fn malformed_ignore_falls_back_with_an_error() {
    for text in [
        "{\"ignore\": \"a\"}",
        "{\"ignore\": 5}",
        "{\"ignore\": {\"a\": 1}}",
        "{\"ignore\": [\"a\", 5]}",
        "{\"ignore\": [[\"a\"]]}",
        "{\"ignore\": [null]}",
    ] {
        let loaded = AgentConfig::from_override(text, Platform::Windows);
        assert_eq!(loaded.config.ignore(), &names(&["LockApp.exe"]));
        assert_eq!(loaded.config.interval(), 10);
        assert_eq!(loaded.errors, vec![ConfigError::ConfigParse(ConfigField::Ignore)]);
    }
}

#[test]
fn each_field_falls_back_on_its_own() {
    let loaded = AgentConfig::from_override("{\"interval\": \"x\", \"ignore\": [\"a\"]}", Platform::Linux);
    assert_eq!(loaded.config.interval(), 10);
    assert_eq!(loaded.config.ignore(), &names(&["a"]));
    assert_eq!(loaded.errors, vec![ConfigError::ConfigParse(ConfigField::Interval)]);

    let loaded = AgentConfig::from_override("{\"interval\": 7, \"ignore\": 1}", Platform::Linux);
    assert_eq!(loaded.config.interval(), 7);
    assert_eq!(loaded.config.ignore(), &Vec::<String>::new());
    assert_eq!(loaded.errors, vec![ConfigError::ConfigParse(ConfigField::Ignore)]);

    let loaded = AgentConfig::from_override("{\"ignore\": 1, \"interval\": false}", Platform::Linux);
    assert_eq!(loaded.config.interval(), 10);
    assert_eq!(
        loaded.errors,
        vec![
            ConfigError::ConfigParse(ConfigField::Interval),
            ConfigError::ConfigParse(ConfigField::Ignore)
        ]
    );
}

#[test]
fn read_override_tells_the_three_cases_apart() {
    assert_eq!(
        read_override(&value("{\"interval\": 4, \"ignore\": [\"x\"]}")),
        ConfigOverride { interval: Setting::Given(4), ignore: Setting::Given(names(&["x"])) }
    );
    assert_eq!(
        read_override(&value("{\"interval\": 0, \"ignore\": [1]}")),
        ConfigOverride { interval: Setting::Given(0), ignore: Setting::Malformed }
    );
    assert_eq!(
        read_override(&value("{\"interval\": \"4\"}")),
        ConfigOverride { interval: Setting::Malformed, ignore: Setting::Absent }
    );
    assert_eq!(
        read_override(&value("[4]")),
        ConfigOverride { interval: Setting::Absent, ignore: Setting::Absent }
    );
    assert_eq!(
        read_override(&serde_json::Value::Null),
        ConfigOverride { interval: Setting::Absent, ignore: Setting::Absent }
    );
}

#[test]
fn parse_override_reads_text() {
    assert_eq!(
        parse_override("{\"interval\": 4}"),
        ConfigOverride { interval: Setting::Given(4), ignore: Setting::Absent }
    );
    assert_eq!(
        parse_override("{\"interval\": 4"),
        ConfigOverride { interval: Setting::Absent, ignore: Setting::Absent }
    );
}

#[test]
fn read_names_wants_strings_only() {
    let all = vec![serde_json::Value::from("a"), serde_json::Value::from("")];
    assert_eq!(read_names(&all), Some(names(&["a", ""])));
    let mixed = vec![serde_json::Value::from("a"), serde_json::Value::from(1u64)];
    assert_eq!(read_names(&mixed), None);
    assert_eq!(read_names(&Vec::new()), Some(Vec::new()));
}

#[test]
fn merge_lays_the_override_over_the_defaults() {
    let base = || AgentConfig::new(10, names(&["a"])).unwrap();
    let loaded =
        base().merge(ConfigOverride { interval: Setting::Given(5), ignore: Setting::Absent });
    assert_eq!(loaded.config.interval(), 5);
    assert_eq!(loaded.config.ignore(), &names(&["a"]));
    assert!(loaded.errors.is_empty());

    let loaded = base()
        .merge(ConfigOverride { interval: Setting::Given(0), ignore: Setting::Given(vec![]) });
    assert_eq!(loaded.config.interval(), 10);
    assert_eq!(loaded.config.ignore(), &Vec::<String>::new());
    assert_eq!(loaded.errors, vec![ConfigError::ConfigParse(ConfigField::Interval)]);

    let loaded =
        base().merge(ConfigOverride { interval: Setting::Malformed, ignore: Setting::Malformed });
    assert_eq!(loaded.config.interval(), 10);
    assert_eq!(loaded.config.ignore(), &names(&["a"]));
    assert_eq!(
        loaded.errors,
        vec![
            ConfigError::ConfigParse(ConfigField::Interval),
            ConfigError::ConfigParse(ConfigField::Ignore)
        ]
    );
}

#[test]
fn args_carry_the_override() {
    assert_eq!(Args::new(None).config(), None);
    assert_eq!(Args::new(Some("{}".to_string())).config(), Some("{}"));
}

#[test]
fn load_config_without_override_gives_defaults() {
    let loaded = load_config(&Args::new(None), Platform::Windows);
    assert_eq!(loaded.config.interval(), 10);
    assert_eq!(loaded.config.ignore(), &names(&["LockApp.exe"]));
    assert!(loaded.errors.is_empty());
}

#[test]
fn load_config_with_override() {
    let loaded = load_config(&Args::new(Some("{\"interval\": 60}".to_string())), Platform::Windows);
    assert_eq!(loaded.config.interval(), 60);
    assert_eq!(loaded.config.ignore(), &names(&["LockApp.exe"]));
    assert!(loaded.errors.is_empty());
}

#[test]
fn launch_makes_a_fresh_agent() {
    let started = launch(
        &Args::new(Some("{\"interval\": 2, \"ignore\": 3}".to_string())),
        Platform::MacOs,
    );
    let agent: &ApplicationAgent = &started.agent;
    assert!(agent.is_running());
    assert_eq!(agent.last_event(), None);
    assert_eq!(agent.config().interval(), 2);
    assert_eq!(agent.config().ignore(), &names(&["scrnsave.scr"]));
    assert_eq!(started.errors, vec![ConfigError::ConfigParse(ConfigField::Ignore)]);
}
