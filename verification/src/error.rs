//! The ways in which producing a chart can fail.

use vstd::prelude::*;

verus! {

/// Why a chart was not produced.
#[derive(Clone, Copy, Debug, PartialEq, Eq, Structural)]
pub enum PlotError {
    /// The directory that receives the images could not be determined.
    NoBaseDir,
    /// The sample domain `[0, range)` is empty.
    EmptyRange,
    /// There is no sample to chart.
    EmptyInput,
    /// Every sample is zero, so the value axis would have no extent.
    DegenerateRange,
    /// The chart could not be laid out as a vector image.
    Rendering,
    /// The vector image could not be turned into a bitmap of the expected size.
    Rasterization,
    /// The image file could not be created or written.
    Io,
}

impl PlotError {
    /// The text of [`PlotError::message`].
    pub open spec fn spec_message(self) -> Seq<char> {
        match self {
            PlotError::NoBaseDir => "Unable to determine base dirs"@,
            PlotError::EmptyRange => "The sample range is empty"@,
            PlotError::EmptyInput => "There are no samples to plot"@,
            PlotError::DegenerateRange => "All samples are zero"@,
            PlotError::Rendering => "The chart could not be rendered"@,
            PlotError::Rasterization => "The chart could not be rasterized"@,
            PlotError::Io => "The image could not be written"@,
        }
    }

    /// A one-line description of the failure, fit for the user.
    pub fn message(&self) -> (text: &'static str)
        ensures
            text@ == self.spec_message(),
    {
        match self {
            PlotError::NoBaseDir => "Unable to determine base dirs",
            PlotError::EmptyRange => "The sample range is empty",
            PlotError::EmptyInput => "There are no samples to plot",
            PlotError::DegenerateRange => "All samples are zero",
            PlotError::Rendering => "The chart could not be rendered",
            PlotError::Rasterization => "The chart could not be rasterized",
            PlotError::Io => "The image could not be written",
        }
    }
}

} // verus!
