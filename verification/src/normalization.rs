//! Normalisation of exchange symbols, timestamps and kline windows into the
//! service's canonical values.

use crate::market_data::{is_btc_usd_spot, Instrument, Timeframe, Timestamp};
use crate::text::str_eq;
use vstd::prelude::*;

verus! {

/// Maps exchange symbols to canonical instruments.
#[derive(Debug, Default, Clone, Copy)]
pub struct SymbolMapper;

/// Whether a Binance spot symbol names BTC/USD.
pub open spec fn is_binance_btc_symbol(symbol: Seq<char>) -> bool {
    symbol == "BTCUSDT"@
}

/// Whether a Kraken pair names BTC/USD.
pub open spec fn is_kraken_btc_pair(pair: Seq<char>) -> bool {
    pair == "XBTUSD"@ || pair == "BTC/USD"@
}

impl SymbolMapper {
    /// The canonical instrument of a Binance spot symbol, if it is known.
    pub fn normalize_binance_spot(self, symbol: &str) -> (res: Option<Instrument>)
        ensures
            is_binance_btc_symbol(symbol@) ==> (res matches Some(i) && is_btc_usd_spot(i)),
            !is_binance_btc_symbol(symbol@) ==> res is None,
    {
        if str_eq(symbol, "BTCUSDT") {
            Some(Instrument::btc_usd_spot())
        } else {
            None
        }
    }

    /// The canonical instrument of a Kraken pair, if it is known.
    pub fn normalize_kraken_spot(self, pair: &str) -> (res: Option<Instrument>)
        ensures
            is_kraken_btc_pair(pair@) ==> (res matches Some(i) && is_btc_usd_spot(i)),
            !is_kraken_btc_pair(pair@) ==> res is None,
    {
        if str_eq(pair, "XBTUSD") || str_eq(pair, "BTC/USD") {
            Some(Instrument::btc_usd_spot())
        } else {
            None
        }
    }
}

/// Turns exchange millisecond times into timestamps.
#[derive(Debug, Default, Clone, Copy)]
pub struct TimestampNormalizer;

impl TimestampNormalizer {
    /// The timestamp of `value` milliseconds, unless it is negative.
    pub fn from_milliseconds(self, value: i64) -> (res: Option<Timestamp>)
        ensures
            value >= 0 ==> res == Some(Timestamp(value)),
            value < 0 ==> res is None,
    {
        match Timestamp::new(value) {
            Ok(t) => Some(t),
            Err(_) => None,
        }
    }
}

/// Turns exchange event fields into canonical windows.
#[derive(Debug, Default, Clone, Copy)]
pub struct MarketEventNormalizer;

impl MarketEventNormalizer {
    /// The window of a kline, unless one of its times is negative.
    pub fn normalize_kline_window(
        self,
        open_time_ms: i64,
        close_time_ms: i64,
        timeframe: Timeframe,
    ) -> (res: Option<(Timestamp, Timestamp, Timeframe)>)
        ensures
            open_time_ms >= 0 && close_time_ms >= 0 ==> res == Some(
                (Timestamp(open_time_ms), Timestamp(close_time_ms), timeframe),
            ),
            open_time_ms < 0 || close_time_ms < 0 ==> res is None,
    {
        let start = match Timestamp::new(open_time_ms) {
            Ok(t) => t,
            Err(_) => return None,
        };
        let end = match Timestamp::new(close_time_ms) {
            Ok(t) => t,
            Err(_) => return None,
        };
        Some((start, end, timeframe))
    }
}

} // verus!
