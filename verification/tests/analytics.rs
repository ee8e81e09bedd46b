use market_intelligence::analytics::{
    CandleGapDetector, ExpectedDirection, MarketRegimeLabel, ScenarioExplanationBuilder,
    ScenarioScoringStrategy, TimeframeDerivationEngine,
};
use market_intelligence::market_data::{Timeframe, Timestamp};
use market_intelligence::persistence::{
    alert_id, analytics_snapshot_id, candle_id, live_price_snapshot_id, source_health_event_id,
    AlertRecord, SourceHealthRecord, expected_direction_as_str, parse_expected_direction, parse_regime_label, regime_label_as_str,
    scenario_snapshot_id, ScenarioObservation,
};

const LABELS: [MarketRegimeLabel; 4] = [
    MarketRegimeLabel::Uptrend,
    MarketRegimeLabel::Downtrend,
    MarketRegimeLabel::Range,
    MarketRegimeLabel::HighVolatilityTransition,
];

#[test]
fn scenario_odds_sum_to_the_whole_for_every_regime() {
    for label in LABELS {
        let odds = ScenarioScoringStrategy.odds(label);
        assert_eq!(odds.bull_bp + odds.base_bp + odds.bear_bp, 10_000);
    }
    let up = ScenarioScoringStrategy.odds(MarketRegimeLabel::Uptrend);
    assert_eq!((up.bull_bp, up.base_bp, up.bear_bp), (5_500, 3_000, 1_500));
    let volatile = ScenarioScoringStrategy.odds(MarketRegimeLabel::HighVolatilityTransition);
    assert_eq!((volatile.bull_bp, volatile.base_bp, volatile.bear_bp), (3_400, 3_300, 3_300));
}

#[test]
fn expected_direction_follows_the_larger_odds() {
    assert_eq!(ScenarioScoringStrategy.expected_direction(MarketRegimeLabel::Uptrend), ExpectedDirection::Bullish);
    assert_eq!(ScenarioScoringStrategy.expected_direction(MarketRegimeLabel::Downtrend), ExpectedDirection::Bearish);
    assert_eq!(ScenarioScoringStrategy.expected_direction(MarketRegimeLabel::Range), ExpectedDirection::Bullish);
    assert_eq!(
        ScenarioScoringStrategy.expected_direction(MarketRegimeLabel::HighVolatilityTransition),
        ExpectedDirection::Bullish
    );
}

#[test]
fn derives_every_higher_timeframe() {
    assert_eq!(
        TimeframeDerivationEngine.default_targets(),
        [
            Timeframe::FiveMinutes,
            Timeframe::FifteenMinutes,
            Timeframe::OneHour,
            Timeframe::FourHours,
            Timeframe::OneDay,
            Timeframe::OneWeek,
        ]
    );
}

#[test]
fn detects_gaps_longer_than_one_timeframe() {
    let detector = CandleGapDetector;
    assert!(!detector.has_gap(60_000, 120_000, Timeframe::OneMinute));
    assert!(detector.has_gap(60_000, 120_001, Timeframe::OneMinute));
    assert!(!detector.has_gap(0, 300_000, Timeframe::FiveMinutes));
    assert!(detector.has_gap(i64::MIN, i64::MAX, Timeframe::OneWeek));
    assert!(!detector.has_gap(i64::MAX, i64::MIN, Timeframe::OneMinute));
}

#[test]
fn stored_labels_round_trip() {
    for label in LABELS {
        assert_eq!(parse_regime_label(regime_label_as_str(label)), Some(label));
    }
    for direction in [ExpectedDirection::Bullish, ExpectedDirection::Neutral, ExpectedDirection::Bearish] {
        assert_eq!(parse_expected_direction(expected_direction_as_str(direction)), Some(direction));
    }
    assert_eq!(regime_label_as_str(MarketRegimeLabel::HighVolatilityTransition), "high_volatility_transition");
    assert_eq!(parse_regime_label("high-volatility transition"), None);
    assert_eq!(parse_expected_direction("sideways"), None);
}

#[test]
fn names_scenario_snapshots() {
    let observation = ScenarioObservation {
        instrument_id: "BTC-USD-SPOT".to_owned(),
        timeframe: Timeframe::OneMinute,
        observed_at: Timestamp(1_710_000_120_000),
        expected_direction: ExpectedDirection::Bullish,
    };
    assert_eq!(scenario_snapshot_id(&observation), "BTC-USD-SPOT:1m:1710000120000:v1");
}

#[test]
fn explanation_phrases_name_each_regime() {
    assert_eq!(ScenarioExplanationBuilder.regime_phrase(MarketRegimeLabel::Uptrend), "uptrend");
    assert_eq!(
        ScenarioExplanationBuilder.regime_phrase(MarketRegimeLabel::HighVolatilityTransition),
        "high-volatility transition"
    );
}

#[test]
fn names_stored_rows() {
    assert_eq!(
        candle_id("BTC-USD-SPOT", "binance", Timeframe::OneMinute, 1_710_000_000_000),
        "BTC-USD-SPOT:binance:1m:1710000000000"
    );
    assert_eq!(
        analytics_snapshot_id("BTC-USD-SPOT", Timeframe::FourHours, -7),
        "BTC-USD-SPOT:4h:-7:v1"
    );
    assert_eq!(
        live_price_snapshot_id("BTC-USD-SPOT", "binance", 0),
        "BTC-USD-SPOT:binance:0"
    );
    let alert = AlertRecord {
        instrument_id: "BTC-USD-SPOT".to_owned(),
        timeframe: Timeframe::OneDay,
        alert_type: "scenario_shifted".to_owned(),
        severity: "warning".to_owned(),
        message: "m".to_owned(),
        triggered_at_ms: 1_710_000_120_000,
        scenario_snapshot_id: None,
        is_acknowledged: false,
    };
    assert_eq!(alert_id(&alert), "BTC-USD-SPOT:1d:scenario_shifted:1710000120000");
    let event = SourceHealthRecord {
        source_id: "binance".to_owned(),
        status: "healthy".to_owned(),
        message: "ok".to_owned(),
        observed_at_ms: 1_710_000_000_000,
        created_at_ms: 1_710_000_000_000,
    };
    assert_eq!(source_health_event_id(&event), "binance:healthy:1710000000000");
}

#[test]
fn distinct_candles_get_distinct_identifiers() {
    let a = candle_id("BTC-USD-SPOT", "binance", Timeframe::OneMinute, 60_000);
    let b = candle_id("BTC-USD-SPOT", "binance", Timeframe::OneMinute, 120_000);
    let c = candle_id("BTC-USD-SPOT", "kraken", Timeframe::OneMinute, 60_000);
    let d = candle_id("BTC-USD-SPOT", "binance", Timeframe::FiveMinutes, 60_000);
    assert_ne!(a, b);
    assert_ne!(a, c);
    assert_ne!(a, d);
    assert_eq!(candle_id("a:b", "c", Timeframe::OneMinute, 1), candle_id("a", "b:c", Timeframe::OneMinute, 1));
}

#[test]
fn builds_probabilities_that_sum_to_one() {
    // Whatever regime the candles classify as (the original's rising candles
    // give an uptrend), the scenario's odds become probabilities, as the
    // service stores them, that sum to one.
    for label in [
        MarketRegimeLabel::Uptrend,
        MarketRegimeLabel::Downtrend,
        MarketRegimeLabel::Range,
        MarketRegimeLabel::HighVolatilityTransition,
    ] {
        let odds = ScenarioScoringStrategy.odds(label);
        assert_eq!(u32::from(odds.bull_bp) + u32::from(odds.base_bp) + u32::from(odds.bear_bp), 10_000);
        let bull_probability = f64::from(odds.bull_bp) / 10_000.0;
        let bear_probability = f64::from(odds.bear_bp) / 10_000.0;
        let base_probability = (1.0_f64 - bull_probability - bear_probability).max(0.0_f64);

        let probability_sum = bull_probability + base_probability + bear_probability;
        assert!((probability_sum - 1.0).abs() < f64::EPSILON);
    }
}
