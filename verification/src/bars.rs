//! Daily price bars and the sample series that the chart is drawn from.

use vstd::prelude::*;

verus! {

/// One day's prices. A price is a whole number of hundredths: 130.06 is
/// 13006.
#[derive(Clone, Debug, PartialEq, Eq)]
pub struct PriceBar {
    /// The day, written as in `2019-04-25`.
    pub date: String,
    pub open: i64,
    pub high: i64,
    pub low: i64,
    pub close: i64,
}

/// What a [`PriceBar`] stands for.
pub struct BarModel {
    pub date: Seq<char>,
    pub open: int,
    pub high: int,
    pub low: int,
    pub close: int,
}

impl BarModel {
    /// The low is the lowest and the high the highest of the four prices.
    pub open spec fn consistent(self) -> bool {
        &&& self.low <= self.open <= self.high
        &&& self.low <= self.close <= self.high
    }

    /// The day closed no lower than it opened.
    pub open spec fn rising(self) -> bool {
        self.close >= self.open
    }
}

impl View for PriceBar {
    type V = BarModel;

    open spec fn view(&self) -> BarModel {
        BarModel {
            date: self.date@,
            open: self.open as int,
            high: self.high as int,
            low: self.low as int,
            close: self.close as int,
        }
    }
}

/// The models of a run of bars, in order.
pub open spec fn models(bars: Seq<PriceBar>) -> Seq<BarModel> {
    Seq::new(bars.len(), |i: int| bars[i]@)
}

impl PriceBar {
    /// A bar with the given date and prices, taken as they are.
    pub fn new(date: &str, open: i64, high: i64, low: i64, close: i64) -> (bar: PriceBar)
        ensures
            bar@ == (BarModel {
                date: date@,
                open: open as int,
                high: high as int,
                low: low as int,
                close: close as int,
            }),
    {
        PriceBar { date: date.to_owned(), open, high, low, close }
    }

    /// Whether the four prices fit together. Nothing enforces this of a bar;
    /// a caller that wants it asks.
    pub fn is_consistent(&self) -> (ok: bool)
        ensures
            ok == self@.consistent(),
    {
        self.low <= self.open && self.open <= self.high && self.low <= self.close
            && self.close <= self.high
    }
}

/// The sample series: thirty trading days, the most recent first.
pub open spec fn sample_series() -> Seq<BarModel> {
    seq![
        BarModel { date: "2019-04-25"@, open: 13006, high: 13137, low: 12883, close: 12915 },
        BarModel { date: "2019-04-24"@, open: 12579, high: 12585, low: 12452, close: 12501 },
        BarModel { date: "2019-04-23"@, open: 12410, high: 12558, low: 12383, close: 12544 },
        BarModel { date: "2019-04-22"@, open: 12262, high: 12400, low: 12257, close: 12376 },
        BarModel { date: "2019-04-18"@, open: 12219, high: 12352, low: 12130, close: 12337 },
        BarModel { date: "2019-04-17"@, open: 12124, high: 12185, low: 12054, close: 12177 },
        BarModel { date: "2019-04-16"@, open: 12164, high: 12165, low: 12010, close: 12077 },
        BarModel { date: "2019-04-15"@, open: 12094, high: 12158, low: 12057, close: 12105 },
        BarModel { date: "2019-04-12"@, open: 12064, high: 12098, low: 12037, close: 12095 },
        BarModel { date: "2019-04-11"@, open: 12054, high: 12085, low: 11992, close: 12033 },
        BarModel { date: "2019-04-10"@, open: 11976, high: 12035, low: 11954, close: 12019 },
        BarModel { date: "2019-04-09"@, open: 11863, high: 11954, low: 11858, close: 11928 },
        BarModel { date: "2019-04-08"@, open: 11981, high: 12002, low: 11864, close: 11993 },
        BarModel { date: "2019-04-05"@, open: 11939, high: 12023, low: 11937, close: 11989 },
        BarModel { date: "2019-04-04"@, open: 12010, high: 12023, low: 11838, close: 11936 },
        BarModel { date: "2019-04-03"@, open: 11986, high: 12043, low: 11915, close: 11997 },
        BarModel { date: "2019-04-02"@, open: 11906, high: 11948, low: 11852, close: 11919 },
        BarModel { date: "2019-04-01"@, open: 11895, high: 11910, low: 11810, close: 11902 },
        BarModel { date: "2019-03-29"@, open: 11807, high: 11832, low: 11696, close: 11794 },
        BarModel { date: "2019-03-28"@, open: 11744, high: 11758, low: 11613, close: 11693 },
        BarModel { date: "2019-03-27"@, open: 11787, high: 11821, low: 11552, close: 11677 },
        BarModel { date: "2019-03-26"@, open: 11862, high: 11870, low: 11685, close: 11791 },
        BarModel { date: "2019-03-25"@, open: 11656, high: 11801, low: 11632, close: 11766 },
        BarModel { date: "2019-03-22"@, open: 11950, high: 11959, low: 11704, close: 11705 },
        BarModel { date: "2019-03-21"@, open: 11713, high: 12082, low: 11709, close: 12022 },
        BarModel { date: "2019-03-20"@, open: 11739, high: 11875, low: 11671, close: 11752 },
        BarModel { date: "2019-03-19"@, open: 11809, high: 11844, low: 11699, close: 11765 },
        BarModel { date: "2019-03-18"@, open: 11617, high: 11761, low: 11605, close: 11757 },
        BarModel { date: "2019-03-15"@, open: 11534, high: 11725, low: 11459, close: 11591 },
        BarModel { date: "2019-03-14"@, open: 11454, high: 11520, low: 11433, close: 11459 },
    ]
}

/// The sample series as bars.
pub fn get_data() -> (bars: Vec<PriceBar>)
    ensures
        models(bars@) == sample_series(),
        bars@.len() == 30,
        forall|i: int| 0 <= i < bars@.len() ==> (#[trigger] bars@[i])@.consistent(),
{
    let mut bars: Vec<PriceBar> = Vec::new();
    bars.push(PriceBar::new("2019-04-25", 13006, 13137, 12883, 12915));
    bars.push(PriceBar::new("2019-04-24", 12579, 12585, 12452, 12501));
    bars.push(PriceBar::new("2019-04-23", 12410, 12558, 12383, 12544));
    bars.push(PriceBar::new("2019-04-22", 12262, 12400, 12257, 12376));
    bars.push(PriceBar::new("2019-04-18", 12219, 12352, 12130, 12337));
    bars.push(PriceBar::new("2019-04-17", 12124, 12185, 12054, 12177));
    bars.push(PriceBar::new("2019-04-16", 12164, 12165, 12010, 12077));
    bars.push(PriceBar::new("2019-04-15", 12094, 12158, 12057, 12105));
    bars.push(PriceBar::new("2019-04-12", 12064, 12098, 12037, 12095));
    bars.push(PriceBar::new("2019-04-11", 12054, 12085, 11992, 12033));
    bars.push(PriceBar::new("2019-04-10", 11976, 12035, 11954, 12019));
    bars.push(PriceBar::new("2019-04-09", 11863, 11954, 11858, 11928));
    bars.push(PriceBar::new("2019-04-08", 11981, 12002, 11864, 11993));
    bars.push(PriceBar::new("2019-04-05", 11939, 12023, 11937, 11989));
    bars.push(PriceBar::new("2019-04-04", 12010, 12023, 11838, 11936));
    bars.push(PriceBar::new("2019-04-03", 11986, 12043, 11915, 11997));
    bars.push(PriceBar::new("2019-04-02", 11906, 11948, 11852, 11919));
    bars.push(PriceBar::new("2019-04-01", 11895, 11910, 11810, 11902));
    bars.push(PriceBar::new("2019-03-29", 11807, 11832, 11696, 11794));
    bars.push(PriceBar::new("2019-03-28", 11744, 11758, 11613, 11693));
    bars.push(PriceBar::new("2019-03-27", 11787, 11821, 11552, 11677));
    bars.push(PriceBar::new("2019-03-26", 11862, 11870, 11685, 11791));
    bars.push(PriceBar::new("2019-03-25", 11656, 11801, 11632, 11766));
    bars.push(PriceBar::new("2019-03-22", 11950, 11959, 11704, 11705));
    bars.push(PriceBar::new("2019-03-21", 11713, 12082, 11709, 12022));
    bars.push(PriceBar::new("2019-03-20", 11739, 11875, 11671, 11752));
    bars.push(PriceBar::new("2019-03-19", 11809, 11844, 11699, 11765));
    bars.push(PriceBar::new("2019-03-18", 11617, 11761, 11605, 11757));
    bars.push(PriceBar::new("2019-03-15", 11534, 11725, 11459, 11591));
    bars.push(PriceBar::new("2019-03-14", 11454, 11520, 11433, 11459));
    assert(models(bars@) =~= sample_series());
    bars
}

} // verus!
