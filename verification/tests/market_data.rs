use core::str::FromStr;
use market_intelligence::market_data::{DataSource, Instrument, MarketType, SourceType, Timeframe, Timestamp};

#[test]
fn parses_supported_timeframe() {
    assert_eq!(Timeframe::from_str("4h"), Ok(Timeframe::FourHours));
    assert_eq!(Timeframe::FourHours.to_string(), "4h");
}

#[test]
fn builds_btc_spot_instrument() {
    let instrument = Instrument::btc_usd_spot();
    assert_eq!(instrument.symbol, "BTC-USD-SPOT");
    assert_eq!(instrument.base_asset, "BTC");
}

#[test]
fn btc_spot_instrument_has_all_canonical_fields() {
    let instrument = Instrument::btc_usd_spot();
    assert_eq!(instrument.id, "BTC-USD-SPOT");
    assert_eq!(instrument.quote_asset, "USD");
    assert_eq!(instrument.market_type, MarketType::Spot);
}

#[test]
fn builds_known_data_sources() {
    let binance = DataSource::binance();
    assert_eq!(binance.id, "binance");
    assert_eq!(binance.name, "Binance");
    assert_eq!(binance.source_type, SourceType::Exchange);
    let kraken = DataSource::kraken();
    assert_eq!(kraken.id, "kraken");
    assert_eq!(kraken.name, "Kraken");
    assert_eq!(kraken.source_type, SourceType::Exchange);
    let coingecko = DataSource::coingecko();
    assert_eq!(coingecko.id, "coingecko");
    assert_eq!(coingecko.name, "CoinGecko");
    assert_eq!(coingecko.source_type, SourceType::Reference);
}

const ALL_TIMEFRAMES: [Timeframe; 7] = [
    Timeframe::OneMinute,
    Timeframe::FiveMinutes,
    Timeframe::FifteenMinutes,
    Timeframe::OneHour,
    Timeframe::FourHours,
    Timeframe::OneDay,
    Timeframe::OneWeek,
];

#[test]
fn timeframe_labels_round_trip() {
    for timeframe in ALL_TIMEFRAMES {
        assert_eq!(Timeframe::from_str(timeframe.as_str()), Ok(timeframe));
        assert_eq!(Timeframe::from_stream_id(timeframe.as_str()), Ok(timeframe));
        assert_eq!(timeframe.to_string(), timeframe.as_str());
    }
}

#[test]
fn timeframe_labels_and_minutes() {
    let labels: Vec<&str> = ALL_TIMEFRAMES.iter().map(|t| t.as_str()).collect();
    assert_eq!(labels, vec!["1m", "5m", "15m", "1h", "4h", "1d", "1w"]);
    let minutes: Vec<i64> = ALL_TIMEFRAMES.iter().map(|t| t.minutes()).collect();
    assert_eq!(minutes, vec![1, 5, 15, 60, 240, 1_440, 10_080]);
}

#[test]
fn rejects_unknown_timeframes() {
    assert_eq!(Timeframe::from_str("2h"), Err("unsupported timeframe"));
    assert_eq!(Timeframe::from_str("1M"), Err("unsupported timeframe"));
    assert_eq!(Timeframe::from_str(""), Err("unsupported timeframe"));
    assert_eq!(Timeframe::from_stream_id("3m"), Err("unsupported timeframe".to_owned()));
}

#[test]
fn timestamps_must_not_be_negative() {
    assert_eq!(Timestamp::new(0), Ok(Timestamp(0)));
    assert_eq!(Timestamp::new(1_710_000_000_000), Ok(Timestamp(1_710_000_000_000)));
    assert_eq!(Timestamp::new(-1), Err("timestamp must be non-negative"));
    assert_eq!(Timestamp::new(i64::MIN), Err("timestamp must be non-negative"));
}
