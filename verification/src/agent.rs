//! The agent: the state it keeps between two events, and what it decides on
//! each of them.

use crate::command::{command_word, parse_line};
use crate::config::{AgentConfig, ConfigView};
use crate::event::{same_sample, ApplicationEvent, Snapshot};
use crate::text::same_text;
use vstd::prelude::*;
use vstd::string::StringExecFns;

verus! {

/// What an `ApplicationAgent` stands for.
pub struct AgentView {
    /// The configuration the agent was made with.
    pub config: ConfigView,
    /// The outcome of the last sample that was not a duplicate.
    pub last_event: Option<Snapshot>,
    /// Whether the agent still serves events.
    pub running: bool,
}

/// What a driver hands to the agent.
#[derive(Debug)]
pub enum Input {
    /// The timer fired and the focused window was sampled: the observation,
    /// or `None` where there was none to be had.
    Tick(Option<ApplicationEvent>),
    /// A line arrived on the agent's input.
    Line(String),
    /// The agent was asked from outside to stop.
    Shutdown,
}

/// What an `Input` stands for.
pub enum InputView {
    Tick(Option<Snapshot>),
    Line(Seq<char>),
    Shutdown,
}

impl View for Input {
    type V = InputView;

    open spec fn view(&self) -> InputView {
        match self {
            Input::Tick(sample) => InputView::Tick(sample.deep_view()),
            Input::Line(line) => InputView::Line(line@),
            Input::Shutdown => InputView::Shutdown,
        }
    }
}

/// What the agent asks its driver to do after an event.
#[derive(Debug, PartialEq)]
pub enum Action {
    /// Write one record for this observation.
    Store(ApplicationEvent),
    /// Nothing to write: the sample repeats the one before.
    Duplicate,
    /// Nothing to write: the application is on the ignore list.
    Ignored,
    /// Nothing to write: no window was observed.
    NoWindow,
    /// Nothing to do: the line held no command.
    NoCommand,
    /// Nothing to do but to report the command word, which is not known.
    Unknown(String),
    /// End the process at once, with success.
    Quit,
    /// Leave the event loop and return.
    Shutdown,
    /// Nothing to do: the agent has stopped.
    Halted,
}

/// What an `Action` stands for.
pub enum ActionView {
    Store(Snapshot),
    Duplicate,
    Ignored,
    NoWindow,
    NoCommand,
    Unknown(Seq<char>),
    Quit,
    Shutdown,
    Halted,
}

impl View for Action {
    type V = ActionView;

    open spec fn view(&self) -> ActionView {
        match self {
            Action::Store(event) => ActionView::Store(event@),
            Action::Duplicate => ActionView::Duplicate,
            Action::Ignored => ActionView::Ignored,
            Action::NoWindow => ActionView::NoWindow,
            Action::NoCommand => ActionView::NoCommand,
            Action::Unknown(word) => ActionView::Unknown(word@),
            Action::Quit => ActionView::Quit,
            Action::Shutdown => ActionView::Shutdown,
            Action::Halted => ActionView::Halted,
        }
    }
}

/// The state of an agent that was just made with `config`.
pub open spec fn initial_state(config: ConfigView) -> AgentView {
    AgentView { config, last_event: None, running: true }
}

/// Whether `sample` repeats `last`: both are observations, and they show the
/// same window at the same place. A failed sample repeats nothing.
pub open spec fn is_duplicate(last: Option<Snapshot>, sample: Option<Snapshot>) -> bool {
    last is Some && sample is Some && same_sample(sample->0, last->0)
}

/// What the agent remembers after `sample` when it remembered `last`: the
/// sample itself, unless it is a duplicate.
pub open spec fn baseline_after(last: Option<Snapshot>, sample: Option<Snapshot>) -> Option<
    Snapshot,
> {
    if is_duplicate(last, sample) {
        last
    } else {
        sample
    }
}

/// Whether `sample` is an observation of an application listed in `ignore`.
pub open spec fn is_ignored_sample(ignore: Seq<Seq<char>>, sample: Option<Snapshot>) -> bool {
    sample is Some && ignore.contains(sample->0.name)
}

/// What is done about `sample` by an agent in state `state`.
pub open spec fn task_action(state: AgentView, sample: Option<Snapshot>) -> ActionView {
    if is_duplicate(state.last_event, sample) {
        ActionView::Duplicate
    } else if sample is None {
        ActionView::NoWindow
    } else if is_ignored_sample(state.config.ignore, sample) {
        ActionView::Ignored
    } else {
        ActionView::Store(sample->0)
    }
}

/// What is done about `line`.
pub open spec fn line_action(line: Seq<char>) -> ActionView {
    match command_word(line) {
        None => ActionView::NoCommand,
        Some(word) => if word == "QUIT"@ {
            ActionView::Quit
        } else {
            ActionView::Unknown(word)
        },
    }
}

/// What an agent in state `state` does about `input`.
pub open spec fn step_action(state: AgentView, input: InputView) -> ActionView {
    if !state.running {
        ActionView::Halted
    } else {
        match input {
            InputView::Tick(sample) => task_action(state, sample),
            InputView::Line(line) => line_action(line),
            InputView::Shutdown => ActionView::Shutdown,
        }
    }
}

/// The state of an agent after `input`, when it was in state `state` before.
pub open spec fn step_state(state: AgentView, input: InputView) -> AgentView {
    if !state.running {
        state
    } else {
        match input {
            InputView::Tick(sample) => AgentView {
                last_event: baseline_after(state.last_event, sample),
                ..state
            },
            InputView::Line(line) => AgentView {
                running: !(line_action(line) is Quit),
                ..state
            },
            InputView::Shutdown => AgentView { running: false, ..state },
        }
    }
}

/// The agent: its configuration, and the sample it compares the next one to.
#[derive(Debug)]
pub struct ApplicationAgent {
    config: AgentConfig,
    last_event: Option<ApplicationEvent>,
    running: bool,
}

impl View for ApplicationAgent {
    type V = AgentView;

    closed spec fn view(&self) -> AgentView {
        AgentView {
            config: self.config@,
            last_event: self.last_event.deep_view(),
            running: self.running,
        }
    }
}

impl ApplicationAgent {
    /// An agent that has seen no sample yet.
    pub fn new(config: AgentConfig) -> (agent: ApplicationAgent)
        ensures
            agent@ == initial_state(config@),
    {
        ApplicationAgent { config, last_event: None, running: true }
    }

    /// The configuration the agent was made with.
    pub fn config(&self) -> (config: &AgentConfig)
        ensures
            config@ == self@.config,
    {
        &self.config
    }

    /// The sample the agent compares the next one to, if it remembers one.
    pub fn last_event(&self) -> (last: Option<&ApplicationEvent>)
        ensures
            match last {
                Some(event) => self@.last_event == Some(event@),
                None => self@.last_event is None,
            },
    {
        self.last_event.as_ref()
    }

    /// Whether the agent still serves events.
    pub fn is_running(&self) -> (running: bool)
        ensures
            running == self@.running,
    {
        self.running
    }

    /// Whether `app_event` repeats the sample the agent remembers. Where it
    /// does not, the agent remembers `app_event` from now on.
    pub fn is_same(&mut self, app_event: &Option<ApplicationEvent>) -> (same: bool)
        ensures
            same == is_duplicate(old(self)@.last_event, app_event.deep_view()),
            final(self)@ == (AgentView {
                last_event: baseline_after(old(self)@.last_event, app_event.deep_view()),
                ..old(self)@
            }),
    {
        if let Some(event) = app_event {
            if let Some(last) = &self.last_event {
                if event.matches(last) {
                    return true;
                }
            }
        }
        self.last_event = match app_event {
            Some(event) => Some(event.clone()),
            None => None,
        };
        false
    }

    /// Whether `app_event` is an observation of an ignored application.
    pub fn is_ignored(&self, app_event: &Option<ApplicationEvent>) -> (ignored: bool)
        ensures
            ignored == is_ignored_sample(self@.config.ignore, app_event.deep_view()),
    {
        if let Some(event) = app_event {
            if self.config.ignores(event.name()) {
                return true;
            }
        }
        false
    }

    /// Takes the outcome of one sample and decides whether it is reported.
    pub fn execute_task(&mut self, app_event: Option<ApplicationEvent>) -> (action: Action)
        ensures
            action@ == task_action(old(self)@, app_event.deep_view()),
            final(self)@ == (AgentView {
                last_event: baseline_after(old(self)@.last_event, app_event.deep_view()),
                ..old(self)@
            }),
    {
        if self.is_same(&app_event) {
            return Action::Duplicate;
        }
        if self.is_ignored(&app_event) {
            return Action::Ignored;
        }
        match app_event {
            Some(event) => Action::Store(event),
            None => Action::NoWindow,
        }
    }

    /// Reads one line of input and decides what it asks for.
    pub fn process_line(&self, line: &str) -> (action: Action)
        ensures
            action@ == line_action(line@),
    {
        match parse_line(line) {
            Some((word, _arguments)) => {
                if same_text(word, "QUIT") {
                    Action::Quit
                } else {
                    Action::Unknown(String::from_str(word))
                }
            },
            None => Action::NoCommand,
        }
    }

    /// Serves one event: a sample, a line of input, or the request to stop.
    /// Once the agent was told to quit or to shut down it serves no more.
    pub fn handle(&mut self, input: Input) -> (action: Action)
        ensures
            action@ == step_action(old(self)@, input@),
            final(self)@ == step_state(old(self)@, input@),
    {
        if !self.running {
            return Action::Halted;
        }
        match input {
            Input::Tick(sample) => self.execute_task(sample),
            Input::Line(line) => {
                let action = self.process_line(line.as_str());
                if let Action::Quit = action {
                    self.running = false;
                }
                action
            },
            Input::Shutdown => {
                self.running = false;
                Action::Shutdown
            },
        }
    }
}

} // verus!
