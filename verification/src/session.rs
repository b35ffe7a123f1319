//! A run of the agent as a whole: the records that are written while it
//! serves a sequence of events, and what holds of them.

use crate::agent::{
    initial_state, is_duplicate, line_action, step_action, step_state, task_action, ActionView,
    AgentView, InputView,
};
use crate::command::command_word;
use crate::config::ConfigView;
use crate::event::{same_sample, Snapshot};
use vstd::prelude::*;

verus! {

/// The records that an action has written: one for `Store`, none otherwise.
pub open spec fn written(action: ActionView) -> Seq<Snapshot> {
    match action {
        ActionView::Store(event) => seq![event],
        _ => Seq::empty(),
    }
}

/// The state of an agent that was in state `state` and has served `inputs`,
/// one after another.
pub open spec fn state_after(state: AgentView, inputs: Seq<InputView>) -> AgentView
    decreases inputs.len(),
{
    if inputs.len() == 0 {
        state
    } else {
        step_state(state_after(state, inputs.drop_last()), inputs.last())
    }
}

/// The records written, in order, while an agent that was in state `state`
/// served `inputs`.
pub open spec fn stores(state: AgentView, inputs: Seq<InputView>) -> Seq<Snapshot>
    decreases inputs.len(),
{
    if inputs.len() == 0 {
        Seq::empty()
    } else {
        stores(state, inputs.drop_last()) + written(
            step_action(state_after(state, inputs.drop_last()), inputs.last()),
        )
    }
}

/// The inputs of a run in which nothing happens but the timer: one tick for
/// each outcome of `samples`.
pub open spec fn ticks(samples: Seq<Option<Snapshot>>) -> Seq<InputView> {
    Seq::new(samples.len(), |i: int| InputView::Tick(samples[i]))
}

/// Whether sample `i` of `samples` is one to report: it is an observation, its
/// application is not listed in `ignore`, and it does not repeat the sample
/// just before it.
pub open spec fn is_reported(ignore: Seq<Seq<char>>, samples: Seq<Option<Snapshot>>, i: int) -> bool {
    &&& samples[i] is Some
    &&& !ignore.contains(samples[i]->0.name)
    &&& !(i > 0 && is_duplicate(samples[i - 1], samples[i]))
}

/// The samples of `samples` that are to be reported, in their order.
pub open spec fn reported(ignore: Seq<Seq<char>>, samples: Seq<Option<Snapshot>>) -> Seq<Snapshot>
    decreases samples.len(),
{
    if samples.len() == 0 {
        Seq::empty()
    } else if is_reported(ignore, samples, samples.len() - 1) {
        reported(ignore, samples.drop_last()).push(samples.last()->0)
    } else {
        reported(ignore, samples.drop_last())
    }
}

/// Whether `input` makes an agent stop: the request to shut down, or a line
/// that holds the command `QUIT`.
pub open spec fn stops(input: InputView) -> bool {
    match input {
        InputView::Tick(_) => false,
        InputView::Line(line) => line_action(line) is Quit,
        InputView::Shutdown => true,
    }
}

/// Whether one of `inputs` makes an agent stop.
pub open spec fn has_stop(inputs: Seq<InputView>) -> bool {
    exists|i: int| 0 <= i < inputs.len() && stops(#[trigger] inputs[i])
}

/// The outcomes of the samples among `inputs` that an agent serves: those of
/// the ticks that arrive before the first input that makes it stop.
pub open spec fn served_samples(inputs: Seq<InputView>) -> Seq<Option<Snapshot>>
    decreases inputs.len(),
{
    if inputs.len() == 0 {
        Seq::empty()
    } else {
        let before = served_samples(inputs.drop_last());
        match inputs.last() {
            InputView::Tick(sample) => if has_stop(inputs.drop_last()) {
                before
            } else {
                before.push(sample)
            },
            _ => before,
        }
    }
}

/// Serving `first` and then `rest` is serving `first + rest`.
pub proof fn lemma_run_concat(state: AgentView, first: Seq<InputView>, rest: Seq<InputView>)
    ensures
        state_after(state, first + rest) == state_after(state_after(state, first), rest),
        stores(state, first + rest) == stores(state, first) + stores(
            state_after(state, first),
            rest,
        ),
    decreases rest.len(),
{
    if rest.len() > 0 {
        assert((first + rest).drop_last() =~= first + rest.drop_last());
        lemma_run_concat(state, first, rest.drop_last());
    }
}

/// Serving a single input is one step.
pub proof fn lemma_run_one(state: AgentView, input: InputView)
    ensures
        state_after(state, seq![input]) == step_state(state, input),
        stores(state, seq![input]) == written(step_action(state, input)),
{
    let one = seq![input];
    assert(state_after(state, one.drop_last()) == state);
    assert(stores(state, one.drop_last()) =~= Seq::<Snapshot>::empty());
}

/// An agent that has stopped stays as it is and writes nothing, whatever it
/// is handed.
pub proof fn lemma_halted_is_silent(state: AgentView, inputs: Seq<InputView>)
    requires
        !state.running,
    ensures
        state_after(state, inputs) == state,
        stores(state, inputs) == Seq::<Snapshot>::empty(),
    decreases inputs.len(),
{
    if inputs.len() > 0 {
        lemma_halted_is_silent(state, inputs.drop_last());
    }
}

/// After a run of ticks the agent still runs with its configuration, and what
/// it remembers stands for the last sample: it is an observation exactly when
/// that sample is one, and then shows the same window at the same place.
pub proof fn lemma_baseline_follows_samples(config: ConfigView, samples: Seq<Option<Snapshot>>)
    ensures
        ({
            let state = state_after(initial_state(config), ticks(samples));
            &&& state.running
            &&& state.config == config
            &&& samples.len() == 0 ==> state.last_event is None
            &&& samples.len() > 0 ==> (state.last_event is Some <==> samples.last() is Some)
            &&& samples.len() > 0 && samples.last() is Some ==> same_sample(
                state.last_event->0,
                samples.last()->0,
            )
        }),
    decreases samples.len(),
{
    if samples.len() > 0 {
        assert(ticks(samples).drop_last() =~= ticks(samples.drop_last()));
        lemma_baseline_follows_samples(config, samples.drop_last());
    }
}

/// For every sequence of sample outcomes, the records written are exactly the
/// observations of applications that are not ignored and that differ from the
/// outcome sampled just before them, in their order.
pub proof fn law_stores_are_the_reported_samples(config: ConfigView, samples: Seq<Option<Snapshot>>)
    ensures
        stores(initial_state(config), ticks(samples)) == reported(config.ignore, samples),
    decreases samples.len(),
{
    if samples.len() > 0 {
        let earlier = samples.drop_last();
        assert(ticks(samples).drop_last() =~= ticks(earlier));
        law_stores_are_the_reported_samples(config, earlier);
        lemma_baseline_follows_samples(config, earlier);
    }
}

/// After any run the agent has its configuration, runs exactly if nothing
/// made it stop, and remembers what stands for the last sample it served.
pub proof fn lemma_state_follows_inputs(config: ConfigView, inputs: Seq<InputView>)
    ensures
        ({
            let state = state_after(initial_state(config), inputs);
            let samples = served_samples(inputs);
            &&& state.running == !has_stop(inputs)
            &&& state.config == config
            &&& samples.len() == 0 ==> state.last_event is None
            &&& samples.len() > 0 ==> (state.last_event is Some <==> samples.last() is Some)
            &&& samples.len() > 0 && samples.last() is Some ==> same_sample(
                state.last_event->0,
                samples.last()->0,
            )
        }),
    decreases inputs.len(),
{
    if inputs.len() > 0 {
        let earlier = inputs.drop_last();
        lemma_state_follows_inputs(config, earlier);
        if !has_stop(earlier) && !stops(inputs.last()) {
            assert forall|i: int| 0 <= i < inputs.len() implies !stops(#[trigger] inputs[i]) by {
                if i < earlier.len() {
                    assert(inputs[i] == earlier[i]);
                }
            }
        }
    }
}

/// For every run, whatever the order of ticks, lines and requests to stop:
/// the records written are exactly the samples to report among those the
/// agent served before it was made to stop.
pub proof fn law_stores_of_any_run(config: ConfigView, inputs: Seq<InputView>)
    ensures
        stores(initial_state(config), inputs) == reported(config.ignore, served_samples(inputs)),
    decreases inputs.len(),
{
    if inputs.len() > 0 {
        let earlier = inputs.drop_last();
        law_stores_of_any_run(config, earlier);
        lemma_state_follows_inputs(config, earlier);
        if let InputView::Tick(sample) = inputs.last() {
            let before = served_samples(earlier);
            assert(before.push(sample).drop_last() =~= before);
        }
    }
}

/// The same observation sampled twice in a row is written at most once: the
/// second of the two is a duplicate, whatever the agent remembered before.
pub proof fn law_repeated_sample_is_written_once(state: AgentView, event: Snapshot)
    requires
        state.running,
    ensures
        step_action(step_state(state, InputView::Tick(Some(event))), InputView::Tick(Some(event)))
            == ActionView::Duplicate,
        stores(state, seq![InputView::Tick(Some(event)), InputView::Tick(Some(event))]).len() <= 1,
{
    let tick = InputView::Tick(Some(event));
    lemma_run_one(state, tick);
    lemma_run_one(step_state(state, tick), tick);
    lemma_run_concat(state, seq![tick], seq![tick]);
    assert(seq![tick] + seq![tick] =~= seq![tick, tick]);
}

/// A failed sample writes nothing and leaves the agent remembering no
/// observation, so that the next observation of an application that is not
/// ignored is written, even where it shows what the agent remembered before
/// the failure.
pub proof fn law_failed_sample_resets_baseline(state: AgentView, next: Snapshot)
    requires
        state.running,
        !state.config.ignore.contains(next.name),
    ensures
        step_action(state, InputView::Tick(None)) == ActionView::NoWindow,
        step_state(state, InputView::Tick(None)).last_event is None,
        step_action(step_state(state, InputView::Tick(None)), InputView::Tick(Some(next)))
            == ActionView::Store(next),
        stores(state, seq![InputView::Tick(None), InputView::Tick(Some(next))]) == seq![next],
{
    let failed = InputView::Tick(None);
    let tick = InputView::Tick(Some(next));
    lemma_run_one(state, failed);
    lemma_run_one(step_state(state, failed), tick);
    lemma_run_concat(state, seq![failed], seq![tick]);
    assert(seq![failed] + seq![tick] =~= seq![failed, tick]);
}

/// A failed sample never writes a record.
pub proof fn law_failed_sample_is_silent(state: AgentView)
    ensures
        written(step_action(state, InputView::Tick(None))) == Seq::<Snapshot>::empty(),
{
}

/// Once a line with the command `QUIT` has arrived nothing more is written:
/// the records of the whole run are those written before that line. Where the
/// agent still ran when the line arrived, its answer to it is `Quit`.
pub proof fn law_quit_halts_output(
    state: AgentView,
    before: Seq<InputView>,
    line: Seq<char>,
    later: Seq<InputView>,
)
    requires
        command_word(line) == Some("QUIT"@),
    ensures
        stores(state, before + seq![InputView::Line(line)] + later) == stores(state, before),
        !state_after(state, before + seq![InputView::Line(line)] + later).running,
        state_after(state, before).running ==> step_action(
            state_after(state, before),
            InputView::Line(line),
        ) == ActionView::Quit,
{
    let quit = InputView::Line(line);
    let reached = state_after(state, before);
    lemma_run_concat(state, before, seq![quit]);
    lemma_run_one(reached, quit);
    lemma_run_concat(state, before + seq![quit], later);
    lemma_halted_is_silent(step_state(reached, quit), later);
}

/// A line whose command word is not `QUIT` writes nothing and changes
/// nothing: the agent answers with the unknown word and goes on to serve what
/// follows as if the line had not arrived.
pub proof fn law_unknown_command_is_skipped(
    state: AgentView,
    line: Seq<char>,
    word: Seq<char>,
    later: Seq<InputView>,
)
    requires
        state.running,
        command_word(line) == Some(word),
        word != "QUIT"@,
    ensures
        step_action(state, InputView::Line(line)) == ActionView::Unknown(word),
        step_state(state, InputView::Line(line)) == state,
        stores(state, seq![InputView::Line(line)] + later) == stores(state, later),
{
    let input = InputView::Line(line);
    lemma_run_one(state, input);
    lemma_run_concat(state, seq![input], later);
}

} // verus!
