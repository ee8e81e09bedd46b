//! The integer side of the analytics: derivation targets, gap detection,
//! regime and direction labels, and the scenario odds each regime carries.

use crate::health::saturate_i64;
use crate::health::saturating_sub_i64;
use crate::market_data::{timeframe_minutes, Timeframe};
use vstd::prelude::*;

verus! {

/// The higher timeframes derived from one-minute candles.
#[derive(Debug, Default, Clone, Copy)]
pub struct TimeframeDerivationEngine;

impl TimeframeDerivationEngine {
    /// The derivation targets, from the shortest to the longest: every
    /// timeframe above one minute.
    pub fn default_targets(self) -> (targets: [Timeframe; 6])
        ensures
            targets@ == seq![
                Timeframe::FiveMinutes,
                Timeframe::FifteenMinutes,
                Timeframe::OneHour,
                Timeframe::FourHours,
                Timeframe::OneDay,
                Timeframe::OneWeek,
            ],
    {
        let targets = [
            Timeframe::FiveMinutes,
            Timeframe::FifteenMinutes,
            Timeframe::OneHour,
            Timeframe::FourHours,
            Timeframe::OneDay,
            Timeframe::OneWeek,
        ];
        assert(targets@ =~= seq![
            Timeframe::FiveMinutes,
            Timeframe::FifteenMinutes,
            Timeframe::OneHour,
            Timeframe::FourHours,
            Timeframe::OneDay,
            Timeframe::OneWeek,
        ]);
        targets
    }

    /// The first and last millisecond of the window of `timeframe` that
    /// holds `open_time_ms`: windows start at the multiples of the
    /// timeframe's length.
    pub fn window_bounds(self, open_time_ms: i64, timeframe: Timeframe) -> (bounds: (i64, i64))
        requires
            window_start(open_time_ms as int, timeframe) >= i64::MIN,
            window_start(open_time_ms as int, timeframe) + window_ms(timeframe) - 1 <= i64::MAX,
        ensures
            bounds.0 == window_start(open_time_ms as int, timeframe),
            bounds.1 == window_start(open_time_ms as int, timeframe) + window_ms(timeframe) - 1,
    {
        let window = timeframe.minutes() * 60_000;
        let offset: i64 = if open_time_ms >= 0 {
            ((open_time_ms as u64) % (window as u64)) as i64
        } else {
            let magnitude: u64 = (0 - (open_time_ms as i128)) as u64;
            let m: u64 = magnitude % (window as u64);
            if m == 0 {
                0
            } else {
                window - (m as i64)
            }
        };
        proof {
            lemma_window_offset(open_time_ms as int, window as int);
        }
        let start = open_time_ms - offset;
        (start, start + (window - 1))
    }
}

/// The length of a window of `timeframe` in milliseconds.
pub open spec fn window_ms(timeframe: Timeframe) -> int {
    timeframe_minutes(timeframe) * 60_000
}

/// The start of the window of `timeframe` that holds `time_ms`.
pub open spec fn window_start(time_ms: int, timeframe: Timeframe) -> int {
    time_ms - time_ms % window_ms(timeframe)
}

/// Every time lies in its own window, and two times share a window exactly
/// when their windows start together.
pub proof fn lemma_window_holds_time(time_ms: int, other_ms: int, timeframe: Timeframe)
    ensures
        window_start(time_ms, timeframe) <= time_ms,
        time_ms <= window_start(time_ms, timeframe) + window_ms(timeframe) - 1,
        window_start(time_ms, timeframe) % window_ms(timeframe) == 0,
        (window_start(time_ms, timeframe) <= other_ms <= window_start(time_ms, timeframe)
            + window_ms(timeframe) - 1) <==> window_start(other_ms, timeframe) == window_start(
            time_ms,
            timeframe,
        ),
{
    let w = window_ms(timeframe);
    assert(w > 0);
    lemma_window_facts(time_ms, other_ms, w);
}

/// The offset of a time in its window, as the unsigned remainder of its
/// magnitude gives it.
proof fn lemma_window_offset(t: int, w: int)
    requires
        w > 0,
    ensures
        t >= 0 ==> t % w == (t as nat) % (w as nat),
        t < 0 && (-t) % w == 0 ==> t % w == 0,
        t < 0 && (-t) % w != 0 ==> t % w == w - (-t) % w,
{
    if t < 0 {
        let a = -t;
        let q = a / w;
        let m = a % w;
        vstd::arithmetic::div_mod::lemma_fundamental_div_mod(a, w);
        assert(0 <= m < w);
        if m == 0 {
            assert(t == (-q) * w + 0) by (nonlinear_arith)
                requires
                    a == w * q + m,
                    m == 0,
                    t == -a,
            ;
            vstd::arithmetic::div_mod::lemma_fundamental_div_mod_converse(t, w, -q, 0);
        } else {
            assert(t == (-q - 1) * w + (w - m)) by (nonlinear_arith)
                requires
                    a == w * q + m,
                    t == -a,
            ;
            vstd::arithmetic::div_mod::lemma_fundamental_div_mod_converse(t, w, -q - 1, w - m);
        }
    }
}

proof fn lemma_window_facts(t: int, u: int, w: int)
    requires
        w > 0,
    ensures
        t - t % w <= t <= t - t % w + w - 1,
        (t - t % w) % w == 0,
        (t - t % w <= u <= t - t % w + w - 1) <==> u - u % w == t - t % w,
{
    vstd::arithmetic::div_mod::lemma_fundamental_div_mod(t, w);
    vstd::arithmetic::div_mod::lemma_mod_bound(t, w);
    vstd::arithmetic::div_mod::lemma_mod_bound(u, w);
    let q = t / w;
    let start = t - t % w;
    assert(start == q * w) by (nonlinear_arith)
        requires
            t == w * q + t % w,
            start == t - t % w,
    ;
    vstd::arithmetic::div_mod::lemma_fundamental_div_mod_converse(start, w, q, 0);
    if start <= u <= start + w - 1 {
        vstd::arithmetic::div_mod::lemma_fundamental_div_mod_converse(u, w, q, u - start);
    }
}

/// Detects missing candles between consecutive candles.
#[derive(Debug, Default, Clone, Copy)]
pub struct CandleGapDetector;

/// Whether more than one timeframe passes between a candle's close and the
/// next candle's open.
pub open spec fn is_gap(previous_close_ms: int, next_open_ms: int, timeframe: Timeframe) -> bool {
    saturate_i64(next_open_ms - previous_close_ms) > timeframe_minutes(timeframe) * 60_000
}

impl CandleGapDetector {
    /// Whether candles of `timeframe` closing at `previous_close_ms` and
    /// opening at `next_open_ms` leave a gap.
    pub fn has_gap(self, previous_close_ms: i64, next_open_ms: i64, timeframe: Timeframe) -> (gap:
        bool)
        ensures
            gap == is_gap(previous_close_ms as int, next_open_ms as int, timeframe),
            gap == (saturate_i64(next_open_ms - previous_close_ms) > window_ms(timeframe)),
    {
        saturating_sub_i64(next_open_ms, previous_close_ms) > timeframe.minutes() * 60_000
    }
}

/// The length of each timeframe's window in milliseconds: a minute, five
/// minutes, a quarter of an hour, an hour, four hours, a day, a week.
pub proof fn lemma_window_lengths()
    ensures
        window_ms(Timeframe::OneMinute) == 60_000,
        window_ms(Timeframe::FiveMinutes) == 300_000,
        window_ms(Timeframe::FifteenMinutes) == 900_000,
        window_ms(Timeframe::OneHour) == 3_600_000,
        window_ms(Timeframe::FourHours) == 14_400_000,
        window_ms(Timeframe::OneDay) == 86_400_000,
        window_ms(Timeframe::OneWeek) == 604_800_000,
{
}

/// A gap is reported exactly when more than one window of the timeframe
/// passes from the previous close to the next open (the distance saturated
/// as `i64` arithmetic does): a next candle exactly one window later leaves
/// none, one a millisecond later leaves one.
pub proof fn lemma_gap_exactly_beyond_one_window(
    previous_close_ms: int,
    next_open_ms: int,
    timeframe: Timeframe,
)
    ensures
        is_gap(previous_close_ms, next_open_ms, timeframe) <==> saturate_i64(
            next_open_ms - previous_close_ms,
        ) > window_ms(timeframe),
        !is_gap(previous_close_ms, previous_close_ms + window_ms(timeframe), timeframe),
        is_gap(previous_close_ms, previous_close_ms + window_ms(timeframe) + 1, timeframe),
{
    lemma_window_lengths();
}

/// Consecutive candles that follow each other within one timeframe never
/// leave a gap, and a later next candle leaves a gap whenever an earlier one
/// does.
pub proof fn lemma_gap_monotone(
    previous_close_ms: i64,
    next_open_ms: i64,
    later_open_ms: i64,
    timeframe: Timeframe,
)
    requires
        next_open_ms <= later_open_ms,
    ensures
        next_open_ms - previous_close_ms <= timeframe_minutes(timeframe) * 60_000 ==> !is_gap(
            previous_close_ms as int,
            next_open_ms as int,
            timeframe,
        ),
        is_gap(previous_close_ms as int, next_open_ms as int, timeframe) ==> is_gap(
            previous_close_ms as int,
            later_open_ms as int,
            timeframe,
        ),
{
}

/// The market regime of an instrument on a timeframe.
#[derive(Debug, Clone, Copy, PartialEq, Eq, Structural)]
pub enum MarketRegimeLabel {
    Uptrend,
    Downtrend,
    Range,
    HighVolatilityTransition,
}

/// The direction a scenario expects.
#[derive(Debug, Clone, Copy, PartialEq, Eq, Structural)]
pub enum ExpectedDirection {
    Bullish,
    Neutral,
    Bearish,
}

/// The odds of the three scenarios in basis points (hundredths of a percent).
#[derive(Debug, Clone, Copy, PartialEq, Eq, Structural)]
pub struct ScenarioOdds {
    pub bull_bp: u32,
    pub base_bp: u32,
    pub bear_bp: u32,
}

/// The bull odds of a regime in basis points.
pub open spec fn regime_bull_bp(label: MarketRegimeLabel) -> int {
    match label {
        MarketRegimeLabel::Uptrend => 5500,
        MarketRegimeLabel::Range => 3000,
        MarketRegimeLabel::Downtrend => 1500,
        MarketRegimeLabel::HighVolatilityTransition => 3400,
    }
}

/// The bear odds of a regime in basis points.
pub open spec fn regime_bear_bp(label: MarketRegimeLabel) -> int {
    match label {
        MarketRegimeLabel::Uptrend => 1500,
        MarketRegimeLabel::Range => 2500,
        MarketRegimeLabel::Downtrend => 5500,
        MarketRegimeLabel::HighVolatilityTransition => 3300,
    }
}

/// The base odds: what bull and bear leave of the whole, never negative.
pub open spec fn regime_base_bp(label: MarketRegimeLabel) -> int {
    let rest = 10_000 - regime_bull_bp(label) - regime_bear_bp(label);
    if rest > 0 {
        rest
    } else {
        0
    }
}

/// The direction of the larger of bull and bear odds; neutral on a tie.
pub open spec fn direction_of(bull_bp: int, bear_bp: int) -> ExpectedDirection {
    if bull_bp > bear_bp {
        ExpectedDirection::Bullish
    } else if bear_bp > bull_bp {
        ExpectedDirection::Bearish
    } else {
        ExpectedDirection::Neutral
    }
}

/// Scores scenarios from the market regime.
#[derive(Debug, Default, Clone, Copy)]
pub struct ScenarioScoringStrategy;

impl ScenarioScoringStrategy {
    /// The bull, base and bear odds of a regime.
    pub fn odds(self, label: MarketRegimeLabel) -> (odds: ScenarioOdds)
        ensures
            odds.bull_bp == regime_bull_bp(label),
            odds.bear_bp == regime_bear_bp(label),
            odds.base_bp == regime_base_bp(label),
            match label {
                MarketRegimeLabel::Uptrend => odds.bull_bp == 5500 && odds.base_bp == 3000
                    && odds.bear_bp == 1500,
                MarketRegimeLabel::Range => odds.bull_bp == 3000 && odds.base_bp == 4500
                    && odds.bear_bp == 2500,
                MarketRegimeLabel::Downtrend => odds.bull_bp == 1500 && odds.base_bp == 3000
                    && odds.bear_bp == 5500,
                MarketRegimeLabel::HighVolatilityTransition => odds.bull_bp == 3400
                    && odds.base_bp == 3300 && odds.bear_bp == 3300,
            },
    {
        let bull_bp: u32 = match label {
            MarketRegimeLabel::Uptrend => 5500,
            MarketRegimeLabel::Range => 3000,
            MarketRegimeLabel::Downtrend => 1500,
            MarketRegimeLabel::HighVolatilityTransition => 3400,
        };
        let bear_bp: u32 = match label {
            MarketRegimeLabel::Uptrend => 1500,
            MarketRegimeLabel::Range => 2500,
            MarketRegimeLabel::Downtrend => 5500,
            MarketRegimeLabel::HighVolatilityTransition => 3300,
        };
        let base_bp: u32 = if bull_bp + bear_bp < 10_000 {
            10_000 - bull_bp - bear_bp
        } else {
            0
        };
        ScenarioOdds { bull_bp, base_bp, bear_bp }
    }

    /// The direction a scenario of this regime expects.
    pub fn expected_direction(self, label: MarketRegimeLabel) -> (direction: ExpectedDirection)
        ensures
            direction == direction_of(regime_bull_bp(label), regime_bear_bp(label)),
            direction == (match label {
                MarketRegimeLabel::Downtrend => ExpectedDirection::Bearish,
                _ => ExpectedDirection::Bullish,
            }),
    {
        let odds = self.odds(label);
        if odds.bull_bp > odds.bear_bp {
            ExpectedDirection::Bullish
        } else if odds.bear_bp > odds.bull_bp {
            ExpectedDirection::Bearish
        } else {
            ExpectedDirection::Neutral
        }
    }
}

/// The three scenario odds of every regime make up the whole, and the
/// expected direction follows the larger of bull and bear odds: bullish in
/// an uptrend, a range and a high-volatility transition, bearish in a
/// downtrend.
pub proof fn lemma_scenario_odds_sum_to_whole(label: MarketRegimeLabel)
    ensures
        regime_bull_bp(label) + regime_base_bp(label) + regime_bear_bp(label) == 10_000,
        0 <= regime_bull_bp(label) && 0 <= regime_base_bp(label) && 0 <= regime_bear_bp(label),
        direction_of(regime_bull_bp(label), regime_bear_bp(label)) == (match label {
            MarketRegimeLabel::Downtrend => ExpectedDirection::Bearish,
            _ => ExpectedDirection::Bullish,
        }),
{
}

/// The odds table of the regimes, in basis points: an uptrend 5500 bull,
/// 3000 base, 1500 bear; a range 3000, 4500, 2500; a downtrend 1500, 3000,
/// 5500; a high-volatility transition 3400, 3300, 3300.
pub proof fn lemma_regime_odds_table()
    ensures
        regime_bull_bp(MarketRegimeLabel::Uptrend) == 5500 && regime_base_bp(
            MarketRegimeLabel::Uptrend,
        ) == 3000 && regime_bear_bp(MarketRegimeLabel::Uptrend) == 1500,
        regime_bull_bp(MarketRegimeLabel::Range) == 3000 && regime_base_bp(MarketRegimeLabel::Range)
            == 4500 && regime_bear_bp(MarketRegimeLabel::Range) == 2500,
        regime_bull_bp(MarketRegimeLabel::Downtrend) == 1500 && regime_base_bp(
            MarketRegimeLabel::Downtrend,
        ) == 3000 && regime_bear_bp(MarketRegimeLabel::Downtrend) == 5500,
        regime_bull_bp(MarketRegimeLabel::HighVolatilityTransition) == 3400 && regime_base_bp(
            MarketRegimeLabel::HighVolatilityTransition,
        ) == 3300 && regime_bear_bp(MarketRegimeLabel::HighVolatilityTransition) == 3300,
{
}

/// Different regimes never get the same odds, and the odds order the
/// regimes: bull odds fall from an uptrend through a high-volatility
/// transition and a range to a downtrend, bear odds rise along the same
/// order, and a range puts more weight on the base scenario than any other
/// regime.
pub proof fn lemma_regime_odds_order(a: MarketRegimeLabel, b: MarketRegimeLabel)
    ensures
        a != b ==> (regime_bull_bp(a), regime_base_bp(a), regime_bear_bp(a)) != (
            regime_bull_bp(b),
            regime_base_bp(b),
            regime_bear_bp(b),
        ),
        regime_bull_bp(MarketRegimeLabel::Uptrend) > regime_bull_bp(
            MarketRegimeLabel::HighVolatilityTransition,
        ) > regime_bull_bp(MarketRegimeLabel::Range) > regime_bull_bp(MarketRegimeLabel::Downtrend),
        regime_bear_bp(MarketRegimeLabel::Uptrend) < regime_bear_bp(MarketRegimeLabel::Range)
            < regime_bear_bp(MarketRegimeLabel::HighVolatilityTransition) < regime_bear_bp(
            MarketRegimeLabel::Downtrend,
        ),
        a != MarketRegimeLabel::Range ==> regime_base_bp(a) < regime_base_bp(
            MarketRegimeLabel::Range,
        ),
{
}

/// The words an explanation uses for each regime.
pub open spec fn regime_phrase(label: MarketRegimeLabel) -> Seq<char> {
    match label {
        MarketRegimeLabel::Uptrend => "uptrend"@,
        MarketRegimeLabel::Downtrend => "downtrend"@,
        MarketRegimeLabel::Range => "range"@,
        MarketRegimeLabel::HighVolatilityTransition => "high-volatility transition"@,
    }
}

/// Writes the plain-language explanation of a scenario.
#[derive(Debug, Default, Clone, Copy)]
pub struct ScenarioExplanationBuilder;

impl ScenarioExplanationBuilder {
    /// The words the explanation uses for a regime.
    pub fn regime_phrase(self, label: MarketRegimeLabel) -> (phrase: &'static str)
        ensures
            phrase@ == regime_phrase(label),
            phrase@ == match label {
                MarketRegimeLabel::Uptrend => "uptrend"@,
                MarketRegimeLabel::Downtrend => "downtrend"@,
                MarketRegimeLabel::Range => "range"@,
                MarketRegimeLabel::HighVolatilityTransition => "high-volatility transition"@,
            },
    {
        match label {
            MarketRegimeLabel::Uptrend => "uptrend",
            MarketRegimeLabel::Downtrend => "downtrend",
            MarketRegimeLabel::Range => "range",
            MarketRegimeLabel::HighVolatilityTransition => "high-volatility transition",
        }
    }
}

} // verus!
