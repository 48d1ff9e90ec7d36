//! The order of a run.
//!
//! A run charts the four strategies one after the other, with the same range
//! and count, and stops at the first failure. Reading the environment and
//! writing files is the caller's part: it reports what happened as an
//! [`Event`] and is told what to do next as an [`Action`].

use vstd::prelude::*;
use crate::chart::Chart;
use crate::error::PlotError;
use crate::strategy::Strategy;

verus! {

/// The size of the sample domain in a run.
pub const RANGE: u64 = 10000;

/// The number of samples in a run.
pub const POINT_COUNT: u64 = 10000;

/// What the caller reports.
#[derive(Clone, Copy, Debug, PartialEq, Eq, Structural)]
pub enum Event {
    /// The run begins. The caller has looked for the directory that receives
    /// the images and says whether there is one.
    Begin { base_dir_found: bool },
    /// The chart of this strategy has been written.
    Written(Strategy),
    /// Producing or writing a chart has failed.
    Failed(PlotError),
}

/// What the caller is to do next.
#[derive(Clone, Copy, Debug, PartialEq, Eq, Structural)]
pub enum Action {
    /// Chart this strategy and write the image.
    Plot(Strategy),
    /// Every chart has been written: end the run with success.
    Finish,
    /// End the run with this error, and write nothing more.
    Abort(PlotError),
}

/// The strategies of a run, in the order in which they are charted.
pub open spec fn schedule() -> Seq<Strategy> {
    seq![
        Strategy::Sequence,
        Strategy::Standard,
        Strategy::XorShift,
        Strategy::Xoshiro256PlusPlus,
    ]
}

/// The action that answers an event.
pub open spec fn next_action(event: Event) -> Action {
    match event {
        Event::Begin { base_dir_found } => if base_dir_found {
            Action::Plot(Strategy::Sequence)
        } else {
            Action::Abort(PlotError::NoBaseDir)
        },
        Event::Written(Strategy::Sequence) => Action::Plot(Strategy::Standard),
        Event::Written(Strategy::Standard) => Action::Plot(Strategy::XorShift),
        Event::Written(Strategy::XorShift) => Action::Plot(Strategy::Xoshiro256PlusPlus),
        Event::Written(Strategy::Xoshiro256PlusPlus) => Action::Finish,
        Event::Failed(e) => Action::Abort(e),
    }
}

/// A run without a failure charts the strategies of the schedule, each once
/// and in order, and then finishes.
pub proof fn lemma_run_follows_schedule()
    ensures
        next_action(Event::Begin { base_dir_found: true }) == Action::Plot(schedule()[0]),
        forall|i: int|
            0 <= i < schedule().len() - 1 ==> next_action(Event::Written(#[trigger] schedule()[i]))
                == Action::Plot(schedule()[i + 1]),
        next_action(Event::Written(schedule().last())) == Action::Finish,
        forall|s: Strategy| schedule().contains(s),
        schedule().no_duplicates(),
{
    assert forall|s: Strategy| schedule().contains(s) by {
        match s {
            Strategy::Sequence => assert(schedule()[0] == s),
            Strategy::Standard => assert(schedule()[1] == s),
            Strategy::XorShift => assert(schedule()[2] == s),
            Strategy::Xoshiro256PlusPlus => assert(schedule()[3] == s),
        }
    }
}

/// A run that cannot begin, or in which a step failed, ends at once with that
/// error: no event of this kind is answered with a chart to write.
pub proof fn lemma_run_fails_fast(event: Event)
    requires
        event == (Event::Begin { base_dir_found: false }) || event is Failed,
    ensures
        next_action(event) is Abort,
        event is Begin ==> next_action(event) == Action::Abort(PlotError::NoBaseDir),
        event matches Event::Failed(e) ==> next_action(event) == Action::Abort(e),
{
}

/// Takes a run one step further: says what to do after `event`.
pub fn run(event: Event) -> (action: Action)
    ensures
        action == next_action(event),
{
    match event {
        Event::Begin { base_dir_found } => {
            if base_dir_found {
                Action::Plot(Strategy::Sequence)
            } else {
                Action::Abort(PlotError::NoBaseDir)
            }
        },
        Event::Written(Strategy::Sequence) => Action::Plot(Strategy::Standard),
        Event::Written(Strategy::Standard) => Action::Plot(Strategy::XorShift),
        Event::Written(Strategy::XorShift) => Action::Plot(Strategy::Xoshiro256PlusPlus),
        Event::Written(Strategy::Xoshiro256PlusPlus) => Action::Finish,
        Event::Failed(e) => Action::Abort(e),
    }
}

/// The chart that a run makes for `strategy`.
pub fn run_chart(strategy: Strategy) -> (r: Result<Chart, PlotError>)
    ensures
        strategy.plots(RANGE, POINT_COUNT, r),
{
    strategy.plot(RANGE, POINT_COUNT)
}

} // verus!
