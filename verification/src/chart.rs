//! The candlestick chart, planned as plain data: which marks to draw, over
//! which axes, onto which canvas. Drawing the plan is left to the caller.

use vstd::prelude::*;
use crate::bars::{get_data, models, sample_series, BarModel, PriceBar};
use crate::calendar::{day_of, parse_time, DateError, Day};

verus! {

/// Where the sample chart is written.
pub const CHART_PATH: &'static str = "stock.svg";

/// The caption above the chart.
pub const TITLE: &'static str = "MSFT Stock Price";

/// The typeface of the caption, and its size.
pub const TITLE_FONT: &'static str = "sans-serif";

pub const TITLE_SIZE: u32 = 50;

/// The sample canvas, in pixels.
pub const CANVAS_WIDTH: u32 = 1024;

pub const CANVAS_HEIGHT: u32 = 768;

/// The room kept for the labels of each axis, in pixels.
pub const LABEL_AREA: u32 = 40;

/// The width of a candlestick, in pixels.
pub const CANDLE_WIDTH: u32 = 15;

/// The bounds of the sample chart's price axis, in hundredths: 110 to 135.
pub const VALUE_MIN: i64 = 11000;

pub const VALUE_MAX: i64 = 13500;

/// Which of the two colours a candlestick is drawn in.
#[derive(Clone, Copy, Debug, PartialEq, Eq, Structural)]
pub enum Trend {
    /// The close is at or above the open.
    Rising,
    /// The close is below the open.
    Falling,
}

/// A colour by its red, green and blue parts, and whether a shape drawn in it
/// is filled or only outlined.
#[derive(Clone, Copy, Debug, PartialEq, Eq, Structural)]
pub struct Paint {
    pub red: u8,
    pub green: u8,
    pub blue: u8,
    pub filled: bool,
}

/// One mark of the chart: a bar whose date has been read.
#[derive(Clone, Copy, Debug, PartialEq, Eq, Structural)]
pub struct Candle {
    pub day: Day,
    pub open: i64,
    pub high: i64,
    pub low: i64,
    pub close: i64,
    pub trend: Trend,
}

/// The bounds of the time axis, as day numbers. `from` lies before `to`
/// where the bars came most recent first.
#[derive(Clone, Copy, Debug, PartialEq, Eq, Structural)]
pub struct ChartRange {
    pub from: i64,
    pub to: i64,
}

/// Why no chart was planned.
#[derive(Clone, Debug, PartialEq, Eq)]
pub enum PlotError {
    /// There is no bar to draw, so the time axis has no bounds.
    EmptyInput,
    /// The bar at `index` carries a date that is none.
    Parse { index: usize, error: DateError },
}

/// What to draw from, and onto what.
#[derive(Clone, Debug, PartialEq, Eq)]
pub struct ChartConfig {
    /// The bars, the most recent first.
    pub bars: Vec<PriceBar>,
    /// The bounds of the price axis, in hundredths.
    pub value_min: i64,
    pub value_max: i64,
    /// The canvas, in pixels.
    pub width: u32,
    pub height: u32,
    /// The file that the drawing goes to.
    pub path: String,
}

/// What a [`ChartConfig`] stands for.
pub struct ConfigModel {
    pub bars: Seq<BarModel>,
    pub value_min: int,
    pub value_max: int,
    pub width: int,
    pub height: int,
    pub path: Seq<char>,
}

impl View for ChartConfig {
    type V = ConfigModel;

    open spec fn view(&self) -> ConfigModel {
        ConfigModel {
            bars: models(self.bars@),
            value_min: self.value_min as int,
            value_max: self.value_max as int,
            width: self.width as int,
            height: self.height as int,
            path: self.path@,
        }
    }
}

/// A planned chart: all that a renderer needs besides the constants of this
/// module.
#[derive(Clone, Debug, PartialEq, Eq)]
pub struct Chart {
    pub path: String,
    pub width: u32,
    pub height: u32,
    pub time_axis: ChartRange,
    pub value_min: i64,
    pub value_max: i64,
    /// One mark for each bar, in the order of the bars.
    pub candles: Vec<Candle>,
}

/// What a [`Chart`] stands for.
pub struct ChartModel {
    pub path: Seq<char>,
    pub width: int,
    pub height: int,
    pub time_axis: ChartRange,
    pub value_min: int,
    pub value_max: int,
    pub candles: Seq<Candle>,
}

impl View for Chart {
    type V = ChartModel;

    open spec fn view(&self) -> ChartModel {
        ChartModel {
            path: self.path@,
            width: self.width as int,
            height: self.height as int,
            time_axis: self.time_axis,
            value_min: self.value_min as int,
            value_max: self.value_max as int,
            candles: self.candles@,
        }
    }
}

/// White, filled: what the canvas is covered with before anything is drawn.
pub open spec fn background_paint() -> Paint {
    Paint { red: 255, green: 255, blue: 255, filled: true }
}

/// White, not filled: the light lines of the grid.
pub open spec fn grid_paint() -> Paint {
    Paint { red: 255, green: 255, blue: 255, filled: false }
}

/// A rising mark is filled green, a falling one outlined red.
pub open spec fn paint_of(trend: Trend) -> Paint {
    match trend {
        Trend::Rising => Paint { red: 0, green: 255, blue: 0, filled: true },
        Trend::Falling => Paint { red: 255, green: 0, blue: 0, filled: false },
    }
}

/// The colour of a bar: rising when it closed at or above its open.
pub open spec fn trend_of(bar: BarModel) -> Trend {
    if bar.rising() {
        Trend::Rising
    } else {
        Trend::Falling
    }
}

/// The mark for `bar` on day `day`.
pub open spec fn candle_of(day: Day, bar: BarModel) -> Candle
    recommends
        i64::MIN <= bar.open <= i64::MAX,
        i64::MIN <= bar.high <= i64::MAX,
        i64::MIN <= bar.low <= i64::MAX,
        i64::MIN <= bar.close <= i64::MAX,
{
    Candle {
        day,
        open: bar.open as i64,
        high: bar.high as i64,
        low: bar.low as i64,
        close: bar.close as i64,
        trend: trend_of(bar),
    }
}

/// Every bar's date denotes a day.
pub open spec fn all_dated(bars: Seq<BarModel>) -> bool {
    forall|i: int| 0 <= i < bars.len() ==> day_of(#[trigger] bars[i].date) is Some
}

/// The bar at `index` is the first whose date denotes no day.
pub open spec fn first_undated(bars: Seq<BarModel>, index: int) -> bool {
    &&& 0 <= index < bars.len()
    &&& day_of(bars[index].date) is None
    &&& forall|j: int| 0 <= j < index ==> day_of(#[trigger] bars[j].date) is Some
}

/// The marks of `bars`, one for one, each on the day that its date denotes.
pub open spec fn candles_of(bars: Seq<BarModel>) -> Seq<Candle>
    recommends
        all_dated(bars),
{
    Seq::new(
        bars.len(),
        |i: int| candle_of(day_of(bars[i].date)->0, bars[i]),
    )
}

/// The time axis of `candles`: from the day before the last mark's day to the
/// day after the first mark's.
pub open spec fn range_of(candles: Seq<Candle>) -> ChartRange
    recommends
        candles.len() > 0,
{
    ChartRange {
        from: (candles.last().day.number - 1) as i64,
        to: (candles.first().day.number + 1) as i64,
    }
}

/// The chart of `candles` under `config`.
pub open spec fn chart_of(config: ConfigModel, candles: Seq<Candle>) -> ChartModel
    recommends
        candles.len() > 0,
{
    ChartModel {
        path: config.path,
        width: config.width,
        height: config.height,
        time_axis: range_of(candles),
        value_min: config.value_min,
        value_max: config.value_max,
        candles,
    }
}

/// The days run from the most recent to the oldest; equal neighbours pass.
pub open spec fn descending(candles: Seq<Candle>) -> bool {
    forall|i: int, j: int|
        0 <= i <= j < candles.len() ==> candles[i].day.number >= candles[j].day.number
}

/// `day` is the day of one of the marks, and none has an earlier one.
pub open spec fn is_oldest(candles: Seq<Candle>, day: int) -> bool {
    &&& exists|i: int| 0 <= i < candles.len() && (#[trigger] candles[i]).day.number == day
    &&& forall|i: int| 0 <= i < candles.len() ==> day <= (#[trigger] candles[i]).day.number
}

/// `day` is the day of one of the marks, and none has a later one.
pub open spec fn is_newest(candles: Seq<Candle>, day: int) -> bool {
    &&& exists|i: int| 0 <= i < candles.len() && (#[trigger] candles[i]).day.number == day
    &&& forall|i: int| 0 <= i < candles.len() ==> day >= (#[trigger] candles[i]).day.number
}

/// The sample configuration: the sample series on the sample canvas.
pub open spec fn sample_config() -> ConfigModel {
    ConfigModel {
        bars: sample_series(),
        value_min: VALUE_MIN as int,
        value_max: VALUE_MAX as int,
        width: CANVAS_WIDTH as int,
        height: CANVAS_HEIGHT as int,
        path: CHART_PATH@,
    }
}

impl Paint {
    /// The paint of the canvas.
    pub fn background() -> (paint: Paint)
        ensures
            paint == background_paint(),
    {
        Paint { red: 255, green: 255, blue: 255, filled: true }
    }

    /// The paint of the light grid lines.
    pub fn grid() -> (paint: Paint)
        ensures
            paint == grid_paint(),
    {
        Paint { red: 255, green: 255, blue: 255, filled: false }
    }
}

impl Trend {
    /// The paint of a mark with this trend.
    pub fn paint(self) -> (paint: Paint)
        ensures
            paint == paint_of(self),
    {
        match self {
            Trend::Rising => Paint { red: 0, green: 255, blue: 0, filled: true },
            Trend::Falling => Paint { red: 255, green: 0, blue: 0, filled: false },
        }
    }
}

impl Candle {
    /// The mark for `bar`, whose date reads as `day`.
    pub fn new(day: Day, bar: &PriceBar) -> (candle: Candle)
        ensures
            candle == candle_of(day, bar@),
    {
        let trend = if bar.close >= bar.open {
            Trend::Rising
        } else {
            Trend::Falling
        };
        Candle { day, open: bar.open, high: bar.high, low: bar.low, close: bar.close, trend }
    }
}

/// Reads the date of every bar and makes its mark. Stops at the first date
/// that denotes no day.
pub fn candles(bars: &Vec<PriceBar>) -> (r: Result<Vec<Candle>, PlotError>)
    ensures
        match r {
            Ok(marks) => all_dated(models(bars@)) && marks@ == candles_of(models(bars@)),
            Err(PlotError::Parse { index, error }) => {
                &&& first_undated(models(bars@), index as int)
                &&& error.text@ == bars@[index as int].date@
            },
            Err(PlotError::EmptyInput) => false,
        },
{
    let mut marks: Vec<Candle> = Vec::new();
    let mut i: usize = 0;
    while i < bars.len()
        invariant
            i <= bars@.len(),
            marks@.len() == i,
            forall|j: int| 0 <= j < i ==> day_of(#[trigger] models(bars@)[j].date) is Some,
            forall|j: int|
                0 <= j < i ==> #[trigger] marks@[j] == candles_of(models(bars@))[j],
        decreases bars@.len() - i,
    {
        let bar = &bars[i];
        match parse_time(bar.date.as_str()) {
            Ok(day) => {
                marks.push(Candle::new(day, bar));
            },
            Err(error) => {
                return Err(PlotError::Parse { index: i, error });
            },
        }
        i += 1;
    }
    assert(marks@ =~= candles_of(models(bars@)));
    Ok(marks)
}

/// The bounds of the time axis: one day beyond the marks at either end.
pub fn axis_range(candles: &Vec<Candle>) -> (r: Result<ChartRange, PlotError>)
    ensures
        match r {
            Ok(range) => candles@.len() > 0 && range == range_of(candles@),
            Err(PlotError::EmptyInput) => candles@.len() == 0,
            Err(PlotError::Parse { .. }) => false,
        },
{
    if candles.len() == 0 {
        return Err(PlotError::EmptyInput);
    }
    let newest: i64 = candles[0].day.number as i64;
    let oldest: i64 = candles[candles.len() - 1].day.number as i64;
    Ok(ChartRange { from: oldest - 1, to: newest + 1 })
}

/// Whether the marks run from the most recent day to the oldest, which is
/// what makes the time axis span them all.
pub fn is_descending(candles: &Vec<Candle>) -> (ok: bool)
    ensures
        ok == descending(candles@),
{
    let mut i: usize = 1;
    while i < candles.len()
        invariant
            1 <= i,
            forall|a: int, b: int|
                0 <= a <= b < i && b < candles@.len() ==> candles@[a].day.number
                    >= candles@[b].day.number,
        decreases candles@.len() - i,
    {
        if candles[i - 1].day.number < candles[i].day.number {
            return false;
        }
        i += 1;
    }
    true
}

impl Chart {
    /// The chart of marks that are already made.
    pub fn assemble(config: &ChartConfig, candles: Vec<Candle>) -> (r: Result<Chart, PlotError>)
        ensures
            match r {
                Ok(chart) => candles@.len() > 0 && chart@ == chart_of(config@, candles@),
                Err(PlotError::EmptyInput) => candles@.len() == 0,
                Err(PlotError::Parse { .. }) => false,
            },
    {
        match axis_range(&candles) {
            Ok(time_axis) => Ok(
                Chart {
                    path: config.path.clone(),
                    width: config.width,
                    height: config.height,
                    time_axis,
                    value_min: config.value_min,
                    value_max: config.value_max,
                    candles,
                },
            ),
            Err(e) => Err(e),
        }
    }
}

impl ChartConfig {
    /// The sample configuration.
    pub fn sample() -> (config: ChartConfig)
        ensures
            config@ == sample_config(),
    {
        ChartConfig {
            bars: get_data(),
            value_min: VALUE_MIN,
            value_max: VALUE_MAX,
            width: CANVAS_WIDTH,
            height: CANVAS_HEIGHT,
            path: CHART_PATH.to_owned(),
        }
    }
}

/// Plans the chart of `config`: reads the dates, bounds the axes, makes the
/// marks. No bars, or a date that is none, and there is no chart.
pub fn plot_with(config: &ChartConfig) -> (r: Result<Chart, PlotError>)
    ensures
        match r {
            Ok(chart) => {
                &&& config@.bars.len() > 0
                &&& all_dated(config@.bars)
                &&& chart@ == chart_of(config@, candles_of(config@.bars))
            },
            Err(PlotError::EmptyInput) => config@.bars.len() == 0,
            Err(PlotError::Parse { index, error }) => {
                &&& first_undated(config@.bars, index as int)
                &&& error.text@ == config@.bars[index as int].date
            },
        },
        r is Ok <==> (config@.bars.len() > 0 && all_dated(config@.bars)),
        (r matches Err(PlotError::EmptyInput)) <==> config@.bars.len() == 0,
        (r matches Err(PlotError::Parse { .. })) <==> !all_dated(config@.bars),
        r matches Ok(chart) ==> chart@.candles.len() == config@.bars.len(),
{
    match candles(&config.bars) {
        Ok(marks) => Chart::assemble(config, marks),
        Err(e) => Err(e),
    }
}

/// Plans the sample chart.
pub fn plot() -> (r: Result<Chart, PlotError>)
    ensures
        match r {
            Ok(chart) => {
                &&& all_dated(sample_series())
                &&& chart@ == chart_of(sample_config(), candles_of(sample_series()))
                &&& chart@.candles.len() == 30
            },
            Err(PlotError::EmptyInput) => false,
            Err(PlotError::Parse { index, error }) => {
                &&& first_undated(sample_series(), index as int)
                &&& error.text@ == sample_series()[index as int].date
            },
        },
{
    let config = ChartConfig::sample();
    plot_with(&config)
}

/// Of marks that run from the most recent day to the oldest, the time axis
/// starts on the day before the oldest day and ends on the day after the most
/// recent one, so that every mark lies strictly inside it.
pub proof fn axis_spans_descending_days(candles: Seq<Candle>)
    requires
        candles.len() > 0,
        descending(candles),
    ensures
        is_oldest(candles, range_of(candles).from + 1),
        is_newest(candles, range_of(candles).to - 1),
        range_of(candles).from < range_of(candles).to,
        forall|i: int|
            0 <= i < candles.len() ==> range_of(candles).from < (#[trigger] candles[i]).day.number
                < range_of(candles).to,
{
    let last = candles.len() - 1;
    assert(candles[last].day.number == range_of(candles).from + 1);
    assert(candles[0].day.number == range_of(candles).to - 1);
}

/// There is at most one first date that denotes no day: the error of a plan
/// names one bar, and which one is settled by the bars.
pub proof fn first_undated_is_settled(bars: Seq<BarModel>, i: int, j: int)
    requires
        first_undated(bars, i),
        first_undated(bars, j),
    ensures
        i == j,
{
    if i < j {
        assert(day_of(bars[i].date) is Some);
    } else if j < i {
        assert(day_of(bars[j].date) is Some);
    }
}

/// Either every date denotes a day or there is a first that does not: a plan
/// of bars at hand always falls under one of the outcomes of [`plot_with`].
pub proof fn dated_or_first_undated(bars: Seq<BarModel>)
    ensures
        all_dated(bars) <==> !exists|i: int| first_undated(bars, i),
    decreases bars.len(),
{
    if bars.len() > 0 {
        let front = bars.drop_last();
        dated_or_first_undated(front);
        assert forall|i: int| 0 <= i < front.len() implies front[i] == bars[i] by {}
        if all_dated(front) {
            if day_of(bars.last().date) is None {
                assert(first_undated(bars, bars.len() - 1));
            } else {
                assert(all_dated(bars));
                assert forall|i: int| !first_undated(bars, i) by {}
            }
        } else {
            let i = choose|i: int| first_undated(front, i);
            assert(first_undated(bars, i));
            assert(!all_dated(bars));
        }
    } else {
        assert forall|i: int| !first_undated(bars, i) by {}
    }
}

} // verus!
