//! The agent's output: one line for the configuration, written at the start,
//! and one line for each record. A line is a tag and a JSON document.

use crate::agent::{initial_state, InputView};
use crate::config::ConfigView;
use crate::event::Snapshot;
use crate::session::stores;
use vstd::prelude::*;
use vstd::string::StringExecFns;

verus! {

/// What one line of output says.
pub enum OutputLine {
    /// The configuration the agent runs with.
    Config(ConfigView),
    /// One observation.
    Store(Snapshot),
}

/// The text of the line that announces the configuration whose JSON form is
/// `json`.
pub open spec fn config_line_text(json: Seq<char>) -> Seq<char> {
    "CONFIG "@ + json
}

/// The text of the line that stores the observation whose JSON form is
/// `json`.
pub open spec fn store_line_text(json: Seq<char>) -> Seq<char> {
    "STORE application "@ + json
}

/// The lines of a run with `config` in which the agent served `inputs`: the
/// configuration, then one line for each record written.
pub open spec fn session_output(config: ConfigView, inputs: Seq<InputView>) -> Seq<OutputLine> {
    seq![OutputLine::Config(config)] + stores(initial_state(config), inputs).map_values(
        |event: Snapshot| OutputLine::Store(event),
    )
}

/// The line that announces the configuration whose JSON form is `json`.
pub fn config_line(json: &str) -> (line: String)
    ensures
        line@ == config_line_text(json@),
{
    let mut line = String::from_str("CONFIG ");
    line.append(json);
    line
}

/// The line that stores the observation whose JSON form is `json`.
pub fn store_line(json: &str) -> (line: String)
    ensures
        line@ == store_line_text(json@),
{
    let mut line = String::from_str("STORE application ");
    line.append(json);
    line
}

/// The configuration is announced exactly once, and before every record: the
/// first line of a run is the configuration, and every later line is a
/// record.
pub proof fn law_config_line_first_and_once(config: ConfigView, inputs: Seq<InputView>)
    ensures
        session_output(config, inputs).len() >= 1,
        session_output(config, inputs)[0] == OutputLine::Config(config),
        forall|i: int|
            1 <= i < session_output(config, inputs).len() ==> #[trigger] session_output(
                config,
                inputs,
            )[i] is Store,
{
}

} // verus!
