//! From a strategy, a range and a count to the chart of the samples.

use vstd::prelude::*;
use crate::chart::{is_plot_of, plot, Chart};
use crate::error::PlotError;
use crate::fitness::{is_fitness_of, lemma_largest_is_maximum};
use crate::names::{file_stem, png_name_of, stem_of};
use crate::samples::{cyclic, in_range, lemma_largest_of_cyclic, sequence_samples, Source};

verus! {

/// A way of producing samples.
#[derive(Clone, Copy, Debug, PartialEq, Eq, Structural)]
pub enum Strategy {
    /// Enumerates the range over and over.
    Sequence,
    /// Draws from the generator that `rand` keeps for the current thread.
    Standard,
    /// Draws from a Xorshift generator.
    XorShift,
    /// Draws from a xoshiro256++ generator.
    Xoshiro256PlusPlus,
}

impl Strategy {
    /// The text of [`Strategy::name`].
    pub open spec fn spec_name(self) -> Seq<char> {
        match self {
            Strategy::Sequence => "sequence"@,
            Strategy::Standard => "standard"@,
            Strategy::XorShift => "xorshift"@,
            Strategy::Xoshiro256PlusPlus => "xoshiro256plusplus"@,
        }
    }

    /// The name under which the strategy appears in file names.
    pub fn name(&self) -> (name: &'static str)
        ensures
            name@ == self.spec_name(),
    {
        match self {
            Strategy::Sequence => "sequence",
            Strategy::Standard => "standard",
            Strategy::XorShift => "xorshift",
            Strategy::Xoshiro256PlusPlus => "xoshiro256plusplus",
        }
    }

    /// What a sample sequence of this strategy looks like: `count` values in
    /// `[0, range)`, and for the cyclic strategy the enumeration itself.
    pub open spec fn yields(self, range: u64, count: u64, samples: Seq<u64>) -> bool {
        &&& samples.len() == count
        &&& in_range(samples, range)
        &&& self is Sequence ==> samples == cyclic(range, count as nat)
    }

    /// `count` samples in `[0, range)`.
    ///
    /// Fails with [`PlotError::EmptyRange`] exactly where `range` is 0.
    pub fn samples(&self, range: u64, count: u64) -> (r: Result<Vec<u64>, PlotError>)
        requires
            count <= usize::MAX,
        ensures
            range == 0 <==> r is Err,
            r matches Err(e) ==> e == PlotError::EmptyRange,
            r matches Ok(samples) ==> self.yields(range, count, samples@),
    {
        if range == 0 {
            return Err(PlotError::EmptyRange);
        }
        match self {
            Strategy::Sequence => sequence_samples(range, count),
            Strategy::Standard => Ok(Source::standard().draw_many(range, count)),
            Strategy::XorShift => Ok(Source::xorshift().draw_many(range, count)),
            Strategy::Xoshiro256PlusPlus => Ok(Source::xoshiro256plusplus().draw_many(range, count)),
        }
    }

    /// What [`Strategy::plot`] returns: the range is rejected where it is
    /// empty; otherwise the outcome is that of charting some sample sequence
    /// of this strategy under the file name that belongs to it.
    pub open spec fn plots(self, range: u64, count: u64, r: Result<Chart, PlotError>) -> bool {
        if range == 0 {
            r == Err::<Chart, PlotError>(PlotError::EmptyRange)
        } else {
            exists|samples: Seq<u64>|
                self.yields(range, count, samples) && #[trigger] is_plot_of(
                    r,
                    stem_of(self.spec_name(), range, count),
                    samples,
                )
        }
    }

    /// What the outcome of [`Strategy::plot`] is on each input: which errors
    /// come on which inputs, and what holds of a chart.
    ///
    /// With `range > 1` and `count > 0` the random strategies fail only where
    /// every sample drawn is zero; the cyclic strategy fails only where it
    /// stops after one sample.
    pub proof fn lemma_plot_outcome(self, range: u64, count: u64, r: Result<Chart, PlotError>)
        requires
            self.plots(range, count, r),
        ensures
            range == 0 ==> r == Err::<Chart, PlotError>(PlotError::EmptyRange),
            range > 0 && count == 0 ==> r == Err::<Chart, PlotError>(PlotError::EmptyInput),
            range == 1 && count > 0 ==> r == Err::<Chart, PlotError>(PlotError::DegenerateRange),
            r matches Err(e) ==> e == PlotError::EmptyRange || e == PlotError::EmptyInput || e
                == PlotError::DegenerateRange,
            r matches Ok(chart) ==> {
                &&& range > 1
                &&& count > 0
                &&& chart.well_formed()
                &&& chart.file_name@ == png_name_of(stem_of(self.spec_name(), range, count))
                &&& self.yields(range, count, chart.samples@)
                &&& is_fitness_of(chart.fitness@, chart.samples@)
                &&& chart.x_upper == count
                &&& chart.y_upper < range
            },
            self is Sequence ==> (r is Ok <==> range > 1 && count > 1),
    {
        if range > 0 {
            let samples = choose|samples: Seq<u64>|
                self.yields(range, count, samples) && #[trigger] is_plot_of(
                    r,
                    stem_of(self.spec_name(), range, count),
                    samples,
                );
            lemma_largest_is_maximum(samples);
            if self is Sequence {
                lemma_largest_of_cyclic(range, count as nat);
            }
        }
    }

    /// Draws `count` samples in `[0, range)` and charts them.
    pub fn plot(&self, range: u64, count: u64) -> (r: Result<Chart, PlotError>)
        requires
            count <= usize::MAX,
        ensures
            self.plots(range, count, r),
    {
        let samples: Vec<u64> = match self.samples(range, count) {
            Err(e) => {
                return Err(e);
            },
            Ok(samples) => samples,
        };
        let stem: String = file_stem(self.name(), range, count);
        let r = plot(stem.as_str(), &samples);
        assert(is_plot_of(r, stem_of(self.spec_name(), range, count), samples@));
        r
    }
}

/// The chart of the cyclic enumeration of `[0, range)`, `point_count` samples
/// long. Its outcome is that of charting exactly that enumeration.
pub fn sequence_rng_plot(range: u64, point_count: u64) -> (r: Result<Chart, PlotError>)
    requires
        point_count <= usize::MAX,
    ensures
        Strategy::Sequence.plots(range, point_count, r),
        range > 0 ==> is_plot_of(
            r,
            stem_of(Strategy::Sequence.spec_name(), range, point_count),
            cyclic(range, point_count as nat),
        ),
{
    Strategy::Sequence.plot(range, point_count)
}

/// The chart of `point_count` samples drawn from the thread's generator.
pub fn standard_rng_plot(range: u64, point_count: u64) -> (r: Result<Chart, PlotError>)
    requires
        point_count <= usize::MAX,
    ensures
        Strategy::Standard.plots(range, point_count, r),
{
    Strategy::Standard.plot(range, point_count)
}

/// The chart of `point_count` samples drawn from a Xorshift generator.
pub fn xorshift_rng_plot(range: u64, point_count: u64) -> (r: Result<Chart, PlotError>)
    requires
        point_count <= usize::MAX,
    ensures
        Strategy::XorShift.plots(range, point_count, r),
{
    Strategy::XorShift.plot(range, point_count)
}

/// The chart of `point_count` samples drawn from a xoshiro256++ generator.
pub fn xoshiro256plusplus_rng_plot(range: u64, point_count: u64) -> (r: Result<Chart, PlotError>)
    requires
        point_count <= usize::MAX,
    ensures
        Strategy::Xoshiro256PlusPlus.plots(range, point_count, r),
{
    Strategy::Xoshiro256PlusPlus.plot(range, point_count)
}

} // verus!
