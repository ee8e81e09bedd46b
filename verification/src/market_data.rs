//! Market-data value types: instruments, data sources, timeframes and
//! timestamps.

use crate::text::str_eq;
use vstd::prelude::*;

verus! {

/// The kind of market an instrument trades on.
#[derive(Debug, Clone, PartialEq, Eq, Structural)]
pub enum MarketType {
    Spot,
}

/// A tradable instrument in the canonical naming of the service.
#[derive(Debug, Clone, PartialEq, Eq)]
pub struct Instrument {
    pub id: String,
    pub symbol: String,
    pub base_asset: String,
    pub quote_asset: String,
    pub market_type: MarketType,
}

/// Whether the instrument is the canonical BTC/USD spot instrument.
pub open spec fn is_btc_usd_spot(instrument: Instrument) -> bool {
    &&& instrument.id@ == "BTC-USD-SPOT"@
    &&& instrument.symbol@ == "BTC-USD-SPOT"@
    &&& instrument.base_asset@ == "BTC"@
    &&& instrument.quote_asset@ == "USD"@
    &&& instrument.market_type == MarketType::Spot
}

impl Instrument {
    /// The canonical BTC/USD spot instrument.
    pub fn btc_usd_spot() -> (instrument: Self)
        ensures
            is_btc_usd_spot(instrument),
    {
        Instrument {
            id: "BTC-USD-SPOT".to_owned(),
            symbol: "BTC-USD-SPOT".to_owned(),
            base_asset: "BTC".to_owned(),
            quote_asset: "USD".to_owned(),
            market_type: MarketType::Spot,
        }
    }
}

/// Whether a source is an exchange or a reference-price provider.
#[derive(Debug, Clone, PartialEq, Eq, Structural)]
pub enum SourceType {
    Exchange,
    Reference,
}

/// A provider of market data.
#[derive(Debug, Clone, PartialEq, Eq)]
pub struct DataSource {
    pub id: String,
    pub name: String,
    pub source_type: SourceType,
}

impl DataSource {
    /// The Binance exchange.
    pub fn binance() -> (source: Self)
        ensures
            source.id@ == "binance"@,
            source.name@ == "Binance"@,
            source.source_type == SourceType::Exchange,
    {
        DataSource {
            id: "binance".to_owned(),
            name: "Binance".to_owned(),
            source_type: SourceType::Exchange,
        }
    }

    /// The Kraken exchange.
    pub fn kraken() -> (source: Self)
        ensures
            source.id@ == "kraken"@,
            source.name@ == "Kraken"@,
            source.source_type == SourceType::Exchange,
    {
        DataSource {
            id: "kraken".to_owned(),
            name: "Kraken".to_owned(),
            source_type: SourceType::Exchange,
        }
    }

    /// The CoinGecko reference-price provider.
    pub fn coingecko() -> (source: Self)
        ensures
            source.id@ == "coingecko"@,
            source.name@ == "CoinGecko"@,
            source.source_type == SourceType::Reference,
    {
        DataSource {
            id: "coingecko".to_owned(),
            name: "CoinGecko".to_owned(),
            source_type: SourceType::Reference,
        }
    }
}

/// The candle intervals the service works with.
#[derive(Debug, Clone, Copy, PartialEq, Eq, Hash, Structural)]
pub enum Timeframe {
    OneMinute,
    FiveMinutes,
    FifteenMinutes,
    OneHour,
    FourHours,
    OneDay,
    OneWeek,
}

/// The short label of a timeframe, as exchanges and the API spell it.
pub open spec fn timeframe_label(timeframe: Timeframe) -> Seq<char> {
    match timeframe {
        Timeframe::OneMinute => "1m"@,
        Timeframe::FiveMinutes => "5m"@,
        Timeframe::FifteenMinutes => "15m"@,
        Timeframe::OneHour => "1h"@,
        Timeframe::FourHours => "4h"@,
        Timeframe::OneDay => "1d"@,
        Timeframe::OneWeek => "1w"@,
    }
}

/// The length of a timeframe in minutes.
pub open spec fn timeframe_minutes(timeframe: Timeframe) -> int {
    match timeframe {
        Timeframe::OneMinute => 1,
        Timeframe::FiveMinutes => 5,
        Timeframe::FifteenMinutes => 15,
        Timeframe::OneHour => 60,
        Timeframe::FourHours => 240,
        Timeframe::OneDay => 1440,
        Timeframe::OneWeek => 10080,
    }
}

/// The timeframe whose label is `text`, if any.
pub open spec fn timeframe_from_label(text: Seq<char>) -> Option<Timeframe> {
    if text == "1m"@ {
        Some(Timeframe::OneMinute)
    } else if text == "5m"@ {
        Some(Timeframe::FiveMinutes)
    } else if text == "15m"@ {
        Some(Timeframe::FifteenMinutes)
    } else if text == "1h"@ {
        Some(Timeframe::OneHour)
    } else if text == "4h"@ {
        Some(Timeframe::FourHours)
    } else if text == "1d"@ {
        Some(Timeframe::OneDay)
    } else if text == "1w"@ {
        Some(Timeframe::OneWeek)
    } else {
        None
    }
}

/// Parsing a timeframe's own label gives the timeframe back, so no two
/// timeframes share a label.
pub proof fn lemma_timeframe_label_round_trip(timeframe: Timeframe)
    ensures
        timeframe_from_label(timeframe_label(timeframe)) == Some(timeframe),
{
    reveal_strlit("1m");
    reveal_strlit("5m");
    reveal_strlit("15m");
    reveal_strlit("1h");
    reveal_strlit("4h");
    reveal_strlit("1d");
    reveal_strlit("1w");
    let labels = seq!["1m"@, "5m"@, "15m"@, "1h"@, "4h"@, "1d"@, "1w"@];
    assert forall|i: int, j: int| 0 <= i < j < 7 implies labels[i] != labels[j] by {
        assert(labels[i][0] != labels[j][0] || labels[i].len() != labels[j].len()
            || labels[i][1] != labels[j][1]);
    }
}

/// Every text that parses as a timeframe is that timeframe's label.
pub proof fn lemma_timeframe_label_parse_exact(text: Seq<char>)
    ensures
        timeframe_from_label(text) matches Some(t) ==> timeframe_label(t) == text,
{
}

impl Timeframe {
    /// The label of the timeframe.
    pub fn as_str(self) -> (label: &'static str)
        ensures
            label@ == timeframe_label(self),
    {
        match self {
            Timeframe::OneMinute => "1m",
            Timeframe::FiveMinutes => "5m",
            Timeframe::FifteenMinutes => "15m",
            Timeframe::OneHour => "1h",
            Timeframe::FourHours => "4h",
            Timeframe::OneDay => "1d",
            Timeframe::OneWeek => "1w",
        }
    }

    /// The length of the timeframe in minutes.
    pub fn minutes(self) -> (minutes: i64)
        ensures
            minutes == timeframe_minutes(self),
    {
        match self {
            Timeframe::OneMinute => 1,
            Timeframe::FiveMinutes => 5,
            Timeframe::FifteenMinutes => 15,
            Timeframe::OneHour => 60,
            Timeframe::FourHours => 240,
            Timeframe::OneDay => 1_440,
            Timeframe::OneWeek => 10_080,
        }
    }

    /// The label of the timeframe as an owned string (the text its display
    /// form shows).
    pub fn to_string(self) -> (text: String)
        ensures
            text@ == timeframe_label(self),
    {
        self.as_str().to_owned()
    }

    /// Parses a timeframe label; any other text is refused with
    /// "unsupported timeframe".
    pub fn from_label(value: &str) -> (res: Result<Timeframe, &'static str>)
        ensures
            match timeframe_from_label(value@) {
                Some(t) => res == Ok::<Timeframe, &'static str>(t),
                None => (res matches Err(e) && e@ == "unsupported timeframe"@),
            },
    {
        if str_eq(value, "1m") {
            Ok(Timeframe::OneMinute)
        } else if str_eq(value, "5m") {
            Ok(Timeframe::FiveMinutes)
        } else if str_eq(value, "15m") {
            Ok(Timeframe::FifteenMinutes)
        } else if str_eq(value, "1h") {
            Ok(Timeframe::OneHour)
        } else if str_eq(value, "4h") {
            Ok(Timeframe::FourHours)
        } else if str_eq(value, "1d") {
            Ok(Timeframe::OneDay)
        } else if str_eq(value, "1w") {
            Ok(Timeframe::OneWeek)
        } else {
            Err("unsupported timeframe")
        }
    }

    /// Parses the interval field of an exchange kline stream; an unknown
    /// interval is refused with "unsupported timeframe".
    pub fn from_stream_id(value: &str) -> (res: Result<Timeframe, String>)
        ensures
            match timeframe_from_label(value@) {
                Some(t) => res == Ok::<Timeframe, String>(t),
                None => (res matches Err(e) && e@ == "unsupported timeframe"@),
            },
    {
        match Timeframe::from_label(value) {
            Ok(t) => Ok(t),
            Err(e) => Err(e.to_owned()),
        }
    }
}

impl core::str::FromStr for Timeframe {
    type Err = &'static str;

    fn from_str(value: &str) -> (res: Result<Self, Self::Err>)
        ensures
            match timeframe_from_label(value@) {
                Some(t) => res == Ok::<Timeframe, &'static str>(t),
                None => (res matches Err(e) && e@ == "unsupported timeframe"@),
            },
    {
        Timeframe::from_label(value)
    }
}

/// A point in time in milliseconds since the Unix epoch; never negative when
/// built through `Timestamp::new`.
#[derive(Debug, Clone, Copy, PartialEq, Eq, PartialOrd, Ord, Structural)]
pub struct Timestamp(pub i64);

impl Timestamp {
    /// A timestamp of `value` milliseconds; negative values are refused with
    /// "timestamp must be non-negative".
    pub fn new(value: i64) -> (res: Result<Self, &'static str>)
        ensures
            value >= 0 ==> res == Ok::<Timestamp, &'static str>(Timestamp(value)),
            value < 0 ==> (res matches Err(e) && e@ == "timestamp must be non-negative"@),
    {
        if value >= 0 {
            return Ok(Timestamp(value));
        }
        Err("timestamp must be non-negative")
    }
}

} // verus!
