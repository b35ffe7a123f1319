//! What the agent is started with.

use vstd::prelude::*;

verus! {

/// The arguments of a start: an optional override of the configuration, as
/// JSON text.
#[derive(Debug)]
pub struct Args {
    config: Option<String>,
}

impl View for Args {
    type V = Option<Seq<char>>;

    closed spec fn view(&self) -> Option<Seq<char>> {
        match self.config {
            Some(text) => Some(text@),
            None => None,
        }
    }
}

impl Args {
    /// The arguments that carry `config` as the override.
    pub fn new(config: Option<String>) -> (args: Args)
        ensures
            args@ == match config {
                Some(text) => Some(text@),
                None => None,
            },
    {
        Args { config }
    }

    /// The override, where one was given.
    pub fn config(&self) -> (text: Option<&str>)
        ensures
            match text {
                Some(t) => self@ == Some(t@),
                None => self@ is None,
            },
    {
        match &self.config {
            Some(text) => Some(text.as_str()),
            None => None,
        }
    }
}

} // verus!
