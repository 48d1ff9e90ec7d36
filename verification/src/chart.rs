//! The chart of a sample sequence and its fitness score.
//!
//! A [`Chart`] holds everything that a renderer needs, as plain values: the
//! two point series with their styles, the extent of both axes, the labels,
//! the size of the image and the name of its file.

use vstd::prelude::*;
use crate::error::PlotError;
use crate::fitness::{fitness, is_fitness_of, largest, max_sample};
use crate::names::{png_name, png_name_of};

verus! {

/// Width of the image, in pixels.
pub const WIDTH: u32 = 1920;

/// Height of the image, in pixels.
pub const HEIGHT: u32 = 1080;

/// Colour of the sample points, as `0xRRGGBB`.
pub const SAMPLES_COLOUR: u32 = 0xDD3355;

/// Colour of the fitness points, as `0xRRGGBB`.
pub const FITNESS_COLOUR: u32 = 0x35C788;

/// Size of a sample point.
pub const SAMPLES_SIZE: u8 = 3;

/// Size of a fitness point.
pub const FITNESS_SIZE: u8 = 4;

/// The shape drawn for a point.
#[derive(Clone, Copy, Debug, PartialEq, Eq, Structural)]
pub enum Marker {
    Circle,
    Square,
}

/// How the points of one series are drawn.
#[derive(Clone, Copy, Debug, PartialEq, Eq, Structural)]
pub struct Style {
    pub marker: Marker,
    /// The fill colour, as `0xRRGGBB`.
    pub colour: u32,
    pub size: u8,
}

/// The style of the sample series.
pub open spec fn samples_style() -> Style {
    Style { marker: Marker::Square, colour: SAMPLES_COLOUR, size: SAMPLES_SIZE }
}

/// The style of the fitness series.
pub open spec fn fitness_style() -> Style {
    Style { marker: Marker::Circle, colour: FITNESS_COLOUR, size: FITNESS_SIZE }
}

/// A chart, ready to be drawn. Point `i` of a series lies at `x = i`.
#[derive(Debug, PartialEq, Eq)]
pub struct Chart {
    /// Name of the image file, without a directory.
    pub file_name: String,
    /// The samples, in the order in which they were produced.
    pub samples: Vec<u64>,
    pub samples_style: Style,
    /// The fitness score after each sample.
    pub fitness: Vec<i128>,
    pub fitness_style: Style,
    /// The horizontal axis spans `[0, x_upper]`.
    pub x_upper: usize,
    /// The vertical axis spans `[0, y_upper]`.
    pub y_upper: u64,
    pub x_label: String,
    pub y_label: String,
    /// Width of the image, in pixels.
    pub width: u32,
    /// Height of the image, in pixels.
    pub height: u32,
}

impl Chart {
    /// This is the chart of `samples`, to be stored under the name `stem`
    /// with the extension of an image file.
    pub open spec fn is_chart_of(&self, stem: Seq<char>, samples: Seq<u64>) -> bool {
        &&& self.file_name@ == png_name_of(stem)
        &&& self.samples@ == samples
        &&& self.samples_style == samples_style()
        &&& is_fitness_of(self.fitness@, samples)
        &&& self.fitness_style == fitness_style()
        &&& self.x_upper == samples.len()
        &&& self.y_upper == largest(samples)
        &&& self.x_label@ == "Time"@
        &&& self.y_label@ == "Value"@
        &&& self.width == WIDTH
        &&& self.height == HEIGHT
    }

    /// Both axes have an extent and both series have a point for every
    /// position on the horizontal axis.
    pub open spec fn well_formed(&self) -> bool {
        &&& 0 < self.x_upper
        &&& 0 < self.y_upper
        &&& self.samples@.len() == self.x_upper
        &&& self.fitness@.len() == self.x_upper
        &&& self.samples_style != self.fitness_style
    }
}

/// Why `samples` cannot be charted, if they cannot.
pub open spec fn plot_error(samples: Seq<u64>) -> Option<PlotError> {
    if samples.len() == 0 {
        Some(PlotError::EmptyInput)
    } else if largest(samples) == 0 {
        Some(PlotError::DegenerateRange)
    } else {
        None
    }
}

/// `r` is the outcome of charting `samples` under the name `stem`.
pub open spec fn is_plot_of(r: Result<Chart, PlotError>, stem: Seq<char>, samples: Seq<u64>) -> bool {
    match r {
        Ok(chart) => plot_error(samples) is None && chart.is_chart_of(stem, samples),
        Err(e) => plot_error(samples) == Some(e),
    }
}

/// A chart made from samples is well formed.
pub proof fn lemma_chart_well_formed(chart: Chart, stem: Seq<char>, samples: Seq<u64>)
    requires
        chart.is_chart_of(stem, samples),
        plot_error(samples) is None,
    ensures
        chart.well_formed(),
{
}

/// The chart of `points`, to be stored under the name `stem` with the
/// extension of an image file.
///
/// Fails with [`PlotError::EmptyInput`] where there is no sample, and with
/// [`PlotError::DegenerateRange`] where every sample is zero.
pub fn plot(stem: &str, points: &Vec<u64>) -> (r: Result<Chart, PlotError>)
    ensures
        is_plot_of(r, stem@, points@),
{
    let max_y: u64 = match max_sample(points) {
        None => {
            return Err(PlotError::EmptyInput);
        },
        Some(m) => m,
    };
    if max_y == 0 {
        return Err(PlotError::DegenerateRange);
    }
    let scores: Vec<i128> = match fitness(points) {
        Err(e) => {
            return Err(e);
        },
        Ok(scores) => scores,
    };
    let samples: Vec<u64> = points.clone();
    assert(samples@ =~= points@);
    Ok(
        Chart {
            file_name: png_name(stem),
            samples,
            samples_style: Style { marker: Marker::Square, colour: SAMPLES_COLOUR, size: SAMPLES_SIZE },
            fitness: scores,
            fitness_style: Style { marker: Marker::Circle, colour: FITNESS_COLOUR, size: FITNESS_SIZE },
            x_upper: points.len(),
            y_upper: max_y,
            x_label: String::from_str("Time"),
            y_label: String::from_str("Value"),
            width: WIDTH,
            height: HEIGHT,
        },
    )
}

} // verus!
