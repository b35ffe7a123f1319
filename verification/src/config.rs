//! The agent's configuration: how often it samples, and which applications
//! it keeps silent about.

use crate::text::same_text;
use vstd::prelude::*;
use vstd::string::StringExecFns;

verus! {

/// The sampling interval, in seconds, where no override names one.
pub const DEFAULT_INTERVAL: u64 = 10;

/// The operating systems the agent runs on.
#[derive(Clone, Copy, Debug, PartialEq, Eq, Structural)]
pub enum Platform {
    Linux,
    MacOs,
    Windows,
}

/// What an `AgentConfig` stands for.
pub struct ConfigView {
    /// Seconds between two samples; never zero.
    pub interval: nat,
    /// The names of the applications that are never reported.
    pub ignore: Seq<Seq<char>>,
}

/// The applications that are ignored on `platform` where no override says
/// otherwise.
pub open spec fn default_ignore_names(platform: Platform) -> Seq<Seq<char>> {
    match platform {
        Platform::Linux => Seq::empty(),
        Platform::MacOs => seq!["scrnsave.scr"@],
        Platform::Windows => seq!["LockApp.exe"@],
    }
}

/// The configuration that holds on `platform` where no override is given.
pub open spec fn default_config(platform: Platform) -> ConfigView {
    ConfigView { interval: DEFAULT_INTERVAL as nat, ignore: default_ignore_names(platform) }
}

/// The names of the applications that are ignored by default on `platform`.
pub fn default_ignore(platform: Platform) -> (names: Vec<String>)
    ensures
        names.deep_view() == default_ignore_names(platform),
{
    let mut names: Vec<String> = Vec::new();
    match platform {
        Platform::Linux => {},
        Platform::MacOs => {
            names.push(String::from_str("scrnsave.scr"));
        },
        Platform::Windows => {
            names.push(String::from_str("LockApp.exe"));
        },
    }
    names
}

/// What an override says of one field of the configuration.
#[derive(Debug, PartialEq)]
pub enum Setting<T> {
    /// The override does not name the field.
    Absent,
    /// The override names the field with a value of the wrong kind.
    Malformed,
    /// The override gives the field this value.
    Given(T),
}

/// The fields of the configuration.
#[derive(Clone, Copy, Debug, PartialEq, Eq, Structural)]
pub enum ConfigField {
    Interval,
    Ignore,
}

/// What can be wrong with an override.
#[derive(Clone, Copy, Debug, PartialEq, Eq, Structural)]
pub enum ConfigError {
    /// The override names this field, but not with a value the field can
    /// take; the field keeps its default.
    ConfigParse(ConfigField),
}

/// What an override says of each field.
#[derive(Debug, PartialEq)]
pub struct ConfigOverride {
    pub interval: Setting<u64>,
    pub ignore: Setting<Vec<String>>,
}

/// What a `ConfigOverride` stands for.
pub struct OverrideView {
    pub interval: Setting<u64>,
    pub ignore: Setting<Seq<Seq<char>>>,
}

impl View for ConfigOverride {
    type V = OverrideView;

    open spec fn view(&self) -> OverrideView {
        OverrideView {
            interval: self.interval,
            ignore: match self.ignore {
                Setting::Absent => Setting::Absent,
                Setting::Malformed => Setting::Malformed,
                Setting::Given(names) => Setting::Given(names.deep_view()),
            },
        }
    }
}

/// The override that names no field.
pub open spec fn no_override() -> OverrideView {
    OverrideView { interval: Setting::Absent, ignore: Setting::Absent }
}

/// Whether `over` names the interval without giving a positive number of
/// seconds.
pub open spec fn interval_rejected(over: OverrideView) -> bool {
    over.interval is Malformed || over.interval == Setting::Given(0u64)
}

/// Whether `over` names the ignore list without giving a list of names.
pub open spec fn ignore_rejected(over: OverrideView) -> bool {
    over.ignore is Malformed
}

/// `defaults` with each field replaced that `over` gives a usable value for.
pub open spec fn merged(defaults: ConfigView, over: OverrideView) -> ConfigView {
    ConfigView {
        interval: if over.interval is Given && !interval_rejected(over) {
            over.interval->Given_0 as nat
        } else {
            defaults.interval
        },
        ignore: if over.ignore is Given {
            over.ignore->Given_0
        } else {
            defaults.ignore
        },
    }
}

/// The errors that `over` gives rise to, in the order of the fields.
pub open spec fn parse_errors(over: OverrideView) -> Seq<ConfigError> {
    (if interval_rejected(over) {
        seq![ConfigError::ConfigParse(ConfigField::Interval)]
    } else {
        Seq::empty()
    }) + (if ignore_rejected(over) {
        seq![ConfigError::ConfigParse(ConfigField::Ignore)]
    } else {
        Seq::empty()
    })
}

/// A configuration, and what was wrong with the override it was made from.
#[derive(Debug)]
pub struct LoadedConfig {
    pub config: AgentConfig,
    pub errors: Vec<ConfigError>,
}

/// A sampling interval and an ignore list. The interval is never zero.
#[derive(Debug)]
pub struct AgentConfig {
    interval: u64,
    ignore: Vec<String>,
}

impl View for AgentConfig {
    type V = ConfigView;

    closed spec fn view(&self) -> ConfigView {
        ConfigView { interval: self.interval as nat, ignore: self.ignore.deep_view() }
    }
}

impl AgentConfig {
    #[verifier::type_invariant]
    spec fn well_formed(&self) -> bool {
        self.interval > 0
    }

    /// The configuration with the given interval and ignore list, or `None`
    /// where the interval is zero.
    pub fn new(interval: u64, ignore: Vec<String>) -> (config: Option<AgentConfig>)
        ensures
            interval == 0 ==> config is None,
            interval > 0 ==> config is Some && config->0@ == (ConfigView {
                interval: interval as nat,
                ignore: ignore.deep_view(),
            }),
    {
        if interval == 0 {
            None
        } else {
            Some(AgentConfig { interval, ignore })
        }
    }

    /// The configuration that holds on `platform` where no override is given.
    pub fn default_for(platform: Platform) -> (config: AgentConfig)
        ensures
            config@ == default_config(platform),
    {
        AgentConfig { interval: DEFAULT_INTERVAL, ignore: default_ignore(platform) }
    }

    /// `self` with each field replaced that `over` gives a usable value for,
    /// and an error for each field that `over` names with an unusable one.
    pub fn merge(self, over: ConfigOverride) -> (loaded: LoadedConfig)
        ensures
            loaded.config@ == merged(self@, over@),
            loaded.errors@ == parse_errors(over@),
    {
        proof {
            use_type_invariant(&self);
        }
        let mut errors: Vec<ConfigError> = Vec::new();
        let mut interval = self.interval;
        let mut ignore = self.ignore;
        match over.interval {
            Setting::Given(seconds) => {
                if seconds > 0 {
                    interval = seconds;
                } else {
                    errors.push(ConfigError::ConfigParse(ConfigField::Interval));
                }
            },
            Setting::Malformed => {
                errors.push(ConfigError::ConfigParse(ConfigField::Interval));
            },
            Setting::Absent => {},
        }
        match over.ignore {
            Setting::Given(names) => {
                ignore = names;
            },
            Setting::Malformed => {
                errors.push(ConfigError::ConfigParse(ConfigField::Ignore));
            },
            Setting::Absent => {},
        }
        LoadedConfig { config: AgentConfig { interval, ignore }, errors }
    }

    /// Seconds between two samples.
    pub fn interval(&self) -> (seconds: u64)
        ensures
            seconds > 0,
            seconds == self@.interval,
    {
        proof {
            use_type_invariant(self);
        }
        self.interval
    }

    /// The names of the applications that are never reported.
    pub fn ignore(&self) -> (names: &Vec<String>)
        ensures
            names.deep_view() == self@.ignore,
    {
        &self.ignore
    }

    /// Whether the application called `name` is on the ignore list.
    pub fn ignores(&self, name: &str) -> (listed: bool)
        ensures
            listed == self@.ignore.contains(name@),
    {
        let mut i: usize = 0;
        while i < self.ignore.len()
            invariant
                i <= self.ignore.len(),
                forall|j: int| 0 <= j < i ==> self.ignore.deep_view()[j] != name@,
            decreases self.ignore.len() - i,
        {
            if same_text(self.ignore[i].as_str(), name) {
                assert(self.ignore.deep_view()[i as int] == name@);
                return true;
            }
            i += 1;
        }
        false
    }
}

} // verus!
