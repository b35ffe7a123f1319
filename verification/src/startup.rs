//! The start of a run: from the arguments to an agent that is ready to serve.

use crate::agent::{initial_state, ApplicationAgent};
use crate::args::Args;
use crate::config::{
    default_config, merged, no_override, parse_errors, AgentConfig, ConfigError, ConfigOverride,
    ConfigView, LoadedConfig, OverrideView, Platform, Setting,
};
use crate::loader::override_of_text;
use vstd::prelude::*;

verus! {

/// The override that a start with `args` asks for: that of the text given,
/// and none where no text was given.
pub open spec fn requested_override(args: Option<Seq<char>>) -> OverrideView {
    match args {
        Some(text) => override_of_text(text),
        None => no_override(),
    }
}

/// The configuration that a start with `args` on `platform` runs with.
pub open spec fn startup_config(args: Option<Seq<char>>, platform: Platform) -> ConfigView {
    merged(default_config(platform), requested_override(args))
}

/// An agent that is ready to serve, and what was wrong with the override it
/// was started with.
#[derive(Debug)]
pub struct Launch {
    pub agent: ApplicationAgent,
    pub errors: Vec<ConfigError>,
}

/// The configuration for a start with `args` on `platform`: the defaults
/// where no override is given, and else the override laid over them.
pub fn load_config(args: &Args, platform: Platform) -> (loaded: LoadedConfig)
    ensures
        loaded.config@ == startup_config(args@, platform),
        loaded.errors@ == parse_errors(requested_override(args@)),
{
    match args.config() {
        Some(text) => AgentConfig::from_override(text, platform),
        None => AgentConfig::default_for(platform).merge(
            ConfigOverride { interval: Setting::Absent, ignore: Setting::Absent },
        ),
    }
}

/// Starts a run: reads the configuration and makes the agent. The agent has
/// seen no sample yet.
pub fn launch(args: &Args, platform: Platform) -> (started: Launch)
    ensures
        started.agent@ == initial_state(startup_config(args@, platform)),
        started.errors@ == parse_errors(requested_override(args@)),
{
    let loaded = load_config(args, platform);
    Launch { agent: ApplicationAgent::new(loaded.config), errors: loaded.errors }
}

/// Without an override the defaults of the platform hold, and nothing is
/// wrong.
pub proof fn law_no_override_gives_defaults(platform: Platform)
    ensures
        startup_config(None, platform) == default_config(platform),
        parse_errors(requested_override(None)) == Seq::<ConfigError>::empty(),
{
}

} // verus!
