//! Charts of an alert's series: how one is styled, named and found again.
pub mod errors;
pub mod handlers;

pub use errors::{ChartHandlerError, ChartServiceError};

use vstd::prelude::*;
use vstd::string::*;
use crate::calendar::{rfc3339_text, TimeRange};
use crate::text::has_prefix;

verus! {

/// Colour of the grid's lines.
pub const GRID_STROKE_COLOR: &'static str = "#e7e7e7";

/// Colour of the ticks on the axes.
pub const TICK_COLOR: &'static str = "#a4a4a4";

/// How many colours the shapes of a chart go through.
pub const SHAPE_COLOR_COUNT: usize = 11;

/// The colour of the shape at `index`, where `index` is below
/// [`SHAPE_COLOR_COUNT`].
pub open spec fn shape_color(index: int) -> Seq<char> {
    if index == 0 {
        "#c00eae"@
    } else if index == 1 {
        "#23304a"@
    } else if index == 2 {
        "#cf3411"@
    } else if index == 3 {
        "#5f4509"@
    } else if index == 4 {
        "#1e6378"@
    } else if index == 5 {
        "#446e02"@
    } else if index == 6 {
        "#117548"@
    } else if index == 7 {
        "#943e5c"@
    } else if index == 8 {
        "#661c28"@
    } else if index == 9 {
        "#802677"@
    } else {
        "#4f18f4"@
    }
}

/// The colour of the shape at `index`: the colours come round again after
/// the last.
pub fn get_shape_list_color(index: usize) -> (color: &'static str)
    ensures
        color@ == shape_color(index as int % SHAPE_COLOR_COUNT as int),
{
    let turn: usize = index % SHAPE_COLOR_COUNT;
    if turn == 0 {
        "#c00eae"
    } else if turn == 1 {
        "#23304a"
    } else if turn == 2 {
        "#cf3411"
    } else if turn == 3 {
        "#5f4509"
    } else if turn == 4 {
        "#1e6378"
    } else if turn == 5 {
        "#446e02"
    } else if turn == 6 {
        "#117548"
    } else if turn == 7 {
        "#943e5c"
    } else if turn == 8 {
        "#661c28"
    } else if turn == 9 {
        "#802677"
    } else {
        "#4f18f4"
    }
}

/// How the values along an axis are written.
#[derive(Clone, Copy, Debug, PartialEq, Eq, Structural)]
pub enum FormatterKind {
    Duration,
    Exponent,
    Percentage,
    Time,
}

/// How the values of an objective are written: durations for a latency
/// objective, percentages for a success rate, powers of ten otherwise.
pub open spec fn spec_y_formatter(slo: Seq<char>) -> FormatterKind {
    if "latency-"@.is_prefix_of(slo) {
        FormatterKind::Duration
    } else if "success-rate-"@.is_prefix_of(slo) {
        FormatterKind::Percentage
    } else {
        FormatterKind::Exponent
    }
}

/// How the values of the objective `slo` are written.
pub fn y_formatter(slo: &str) -> (kind: FormatterKind)
    ensures
        kind == spec_y_formatter(slo@),
{
    if has_prefix(slo, "latency-") {
        FormatterKind::Duration
    } else if has_prefix(slo, "success-rate-") {
        FormatterKind::Percentage
    } else {
        FormatterKind::Exponent
    }
}

/// How a chart is drawn.
#[derive(Clone, Copy, Debug, PartialEq, Eq, Structural)]
pub struct ChartOptions {
    pub width: u32,
    pub height: u32,
    pub area_gradient_shown: bool,
    pub axis_lines_shown: bool,
    pub grid_columns_shown: bool,
    pub grid_rows_shown: bool,
    pub shape_stroke_width: Option<u32>,
    pub x_formatter: Option<FormatterKind>,
    pub y_formatter: Option<FormatterKind>,
}

/// The file name of the chart of `slo` over a range that ends at `to`.
pub open spec fn spec_chart_filename(slo: Seq<char>, to: int) -> Seq<char> {
    rfc3339_text(to) + "-"@ + slo + ".png"@
}

/// The file name of the chart of `slo` over `time_range`: the end of the
/// range, then the objective.
pub fn chart_filename(slo: &str, time_range: &TimeRange) -> (filename: String)
    requires
        time_range.to.printable(),
    ensures
        filename@ == spec_chart_filename(slo@, time_range.to@),
{
    let mut filename: String = time_range.to.to_rfc3339();
    filename.append("-");
    filename.append(slo);
    filename.append(".png");
    filename
}

/// Where charts are kept.
#[derive(Debug)]
pub struct ChartServiceConfig {
    /// Directory where charts are stored.
    pub storage_dir: String,
}

impl ChartServiceConfig {
    /// A configuration for trials: charts go to `/tmp`.
    pub fn new_test_config() -> (config: ChartServiceConfig)
        ensures
            config.storage_dir@ == "/tmp"@,
    {
        ChartServiceConfig { storage_dir: "/tmp".to_owned() }
    }
}

/// The chart service.
#[derive(Debug)]
pub struct ChartService {
    pub config: ChartServiceConfig,
}

impl ChartService {
    pub fn new(config: ChartServiceConfig) -> (service: ChartService)
        ensures
            service.config == config,
    {
        ChartService { config }
    }

    /// How the chart of the objective `slo` is drawn: a line chart of 1180
    /// by 400 with grid and axes, time along the x axis, and the values
    /// written as the objective's kind asks.
    pub fn chart_options(&self, slo: &str) -> (options: ChartOptions)
        ensures
            options == (ChartOptions {
                width: 1180,
                height: 400,
                area_gradient_shown: false,
                axis_lines_shown: true,
                grid_columns_shown: true,
                grid_rows_shown: true,
                shape_stroke_width: Some(4u32),
                x_formatter: Some(FormatterKind::Time),
                y_formatter: Some(spec_y_formatter(slo@)),
            }),
    {
        ChartOptions {
            width: 1180,
            height: 400,
            area_gradient_shown: false,
            axis_lines_shown: true,
            grid_columns_shown: true,
            grid_rows_shown: true,
            shape_stroke_width: Some(4),
            x_formatter: Some(FormatterKind::Time),
            y_formatter: Some(y_formatter(slo)),
        }
    }
}

} // verus!
