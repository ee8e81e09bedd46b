//! The reading of exchange answers: which fields a Binance or Kraken answer
//! must carry, in which order they are checked, the error each missing or
//! refused field gives, and the values an accepted answer yields.
//!
//! An answer is read in two steps. Its JSON text is parsed and its fields
//! are taken out by key or position, the decimals as their texts (the
//! `Raw...` types). The program then reads those decimal texts into
//! floating-point prices, which this library does not hold, and hands on the
//! outcome of that reading as `DecimalText`s; the fields are then checked.

use crate::adapters::{stream_kind, BinanceMarketDataAdapter, BinanceStreamKind, KrakenMarketDataAdapter};
use crate::json::{
    boolean_of, field_of, integer_of, item_of, json_array_debug, json_array_debug_text,
    json_boolean, json_document, json_field, json_integer, json_item, json_text, optional_text,
    parse_json_document, text_of, JsonValue,
};
use crate::market_data::{timeframe_from_label, Timeframe, Timestamp};
use crate::text::{decimal, u64_to_decimal};
use vstd::prelude::*;

verus! {

/// A decimal field of an answer, as the program read it: absent or not a
/// string; a text the decimal reader refused, with the reader's error; a
/// decimal whose value the field does not admit, with the refusal; or an
/// accepted decimal text.
#[derive(Debug, Clone, PartialEq, Eq)]
pub enum DecimalText {
    Missing,
    Unparsable(String),
    Rejected(String),
    Accepted(String),
}

/// The fields of the `k` object of a Binance kline stream payload; `None`
/// where a field is absent or of another JSON type.
#[derive(Debug, Clone, PartialEq, Eq)]
pub struct KlineFields {
    pub interval: Option<String>,
    pub open_time_ms: Option<i64>,
    pub close_time_ms: Option<i64>,
    pub open: DecimalText,
    pub high: DecimalText,
    pub low: DecimalText,
    pub close: DecimalText,
    pub volume: DecimalText,
    pub trade_count: Option<i64>,
    pub is_final: Option<bool>,
}

/// The fields of a Binance mini-ticker stream payload.
#[derive(Debug, Clone, PartialEq, Eq)]
pub struct MiniTickerFields {
    pub open: DecimalText,
    pub close: DecimalText,
    pub volume: DecimalText,
    pub event_time_ms: Option<i64>,
}

/// The `data` object of a combined-stream message: its `k` object when it
/// has one, and its mini-ticker fields.
#[derive(Debug, Clone, PartialEq, Eq)]
pub struct StreamData {
    pub kline: Option<KlineFields>,
    pub mini_ticker: MiniTickerFields,
}

/// A Binance combined-stream message: its stream name (when it is a string)
/// and its data (when present).
#[derive(Debug, Clone, PartialEq, Eq)]
pub struct CombinedStreamMessage {
    pub stream: Option<String>,
    pub data: Option<StreamData>,
}

/// An accepted candle: its window and timeframe, its prices and volume as
/// decimal texts, its trade count and whether it is closed.
#[derive(Debug, Clone, PartialEq, Eq)]
pub struct KlineUpdate {
    pub timeframe: Timeframe,
    pub open_time: Timestamp,
    pub close_time: Timestamp,
    pub open: String,
    pub high: String,
    pub low: String,
    pub close: String,
    pub volume: String,
    pub trade_count: u64,
    pub is_final: bool,
}

/// An accepted mini-ticker update: open and last price and volume as decimal
/// texts, and the time of the event.
#[derive(Debug, Clone, PartialEq, Eq)]
pub struct MiniTickerUpdate {
    pub open: String,
    pub close: String,
    pub volume: String,
    pub observed_at: Timestamp,
}

/// What a combined-stream message carries.
#[derive(Debug, Clone, PartialEq, Eq)]
pub enum StreamEvent {
    Kline(KlineUpdate),
    MiniTicker(MiniTickerUpdate),
}

/// The field of a Binance latest-price answer.
#[derive(Debug, Clone, PartialEq, Eq)]
pub struct LatestPriceFields {
    pub price: DecimalText,
}

/// The fields of a Binance 24-hour market summary answer.
#[derive(Debug, Clone, PartialEq, Eq)]
pub struct MarketSummaryFields {
    pub last_price: DecimalText,
    pub volume: DecimalText,
    pub close_time_ms: Option<i64>,
    pub price_change_percent: DecimalText,
}

/// An accepted market summary: last price, volume and 24-hour change as
/// decimal texts, and the time it closes at.
#[derive(Debug, Clone, PartialEq, Eq)]
pub struct MarketSummaryUpdate {
    pub last_price: String,
    pub volume: String,
    pub observed_at: Timestamp,
    pub price_change_percent: String,
}

/// The entries of one record of a Binance klines answer, by position: open
/// time (0), open, high, low and close (1 to 4), volume (5), close time (6)
/// and trade count (8).
#[derive(Debug, Clone, PartialEq, Eq)]
pub struct KlineRecordFields {
    pub open_time_ms: Option<i64>,
    pub open: DecimalText,
    pub high: DecimalText,
    pub low: DecimalText,
    pub close: DecimalText,
    pub volume: DecimalText,
    pub close_time_ms: Option<i64>,
    pub trade_count: Option<i64>,
}

/// A Binance klines answer: its records when it is an array.
#[derive(Debug, Clone, PartialEq, Eq)]
pub struct KlinesResponseFields {
    pub records: Option<Vec<KlineRecordFields>>,
}

/// The `error` array of a Kraken answer: how many entries it has and how
/// the program renders it.
#[derive(Debug, Clone, PartialEq, Eq)]
pub struct KrakenErrorList {
    pub count: usize,
    pub rendered: String,
}

/// A Kraken ticker answer: its error array (when it is an array) and, when
/// its result is an object, the last trade price of each of its tickers in
/// the order the object is read.
#[derive(Debug, Clone, PartialEq, Eq)]
pub struct KrakenTickerFields {
    pub errors: Option<KrakenErrorList>,
    pub last_trades: Option<Vec<DecimalText>>,
}

/// The fields of the `k` object of a kline stream payload as taken out of
/// its JSON, the decimals as texts; `None` where a field is absent or of
/// another JSON type.
#[derive(Debug, Clone, PartialEq, Eq)]
pub struct RawKlineFields {
    pub interval: Option<String>,
    pub open_time_ms: Option<i64>,
    pub close_time_ms: Option<i64>,
    pub open: Option<String>,
    pub high: Option<String>,
    pub low: Option<String>,
    pub close: Option<String>,
    pub volume: Option<String>,
    pub trade_count: Option<i64>,
    pub is_final: Option<bool>,
}

/// The mini-ticker fields of a stream payload as taken out of its JSON.
#[derive(Debug, Clone, PartialEq, Eq)]
pub struct RawMiniTickerFields {
    pub open: Option<String>,
    pub close: Option<String>,
    pub volume: Option<String>,
    pub event_time_ms: Option<i64>,
}

/// The `data` object of a combined-stream message as taken out of its JSON.
#[derive(Debug, Clone, PartialEq, Eq)]
pub struct RawStreamData {
    pub kline: Option<RawKlineFields>,
    pub mini_ticker: RawMiniTickerFields,
}

/// A combined-stream message as taken out of its JSON.
#[derive(Debug, Clone, PartialEq, Eq)]
pub struct RawCombinedStreamMessage {
    pub stream: Option<String>,
    pub data: Option<RawStreamData>,
}

/// A latest-price answer as taken out of its JSON.
#[derive(Debug, Clone, PartialEq, Eq)]
pub struct RawLatestPriceFields {
    pub price: Option<String>,
}

/// A 24-hour market summary as taken out of its JSON.
#[derive(Debug, Clone, PartialEq, Eq)]
pub struct RawMarketSummaryFields {
    pub last_price: Option<String>,
    pub volume: Option<String>,
    pub close_time_ms: Option<i64>,
    pub price_change_percent: Option<String>,
}

/// One record of a klines answer as taken out of its JSON, by position.
#[derive(Debug, Clone, PartialEq, Eq)]
pub struct RawKlineRecordFields {
    pub open_time_ms: Option<i64>,
    pub open: Option<String>,
    pub high: Option<String>,
    pub low: Option<String>,
    pub close: Option<String>,
    pub volume: Option<String>,
    pub close_time_ms: Option<i64>,
    pub trade_count: Option<i64>,
}

/// A klines answer as taken out of its JSON: its records when it is an
/// array.
#[derive(Debug, Clone, PartialEq, Eq)]
pub struct RawKlinesResponseFields {
    pub records: Option<Vec<RawKlineRecordFields>>,
}

/// A Kraken ticker answer as taken out of its JSON: its error array (count
/// and rendering) when it is an array, and the last trade price text of each
/// ticker when its result is an object.
#[derive(Debug, Clone, PartialEq, Eq)]
pub struct RawKrakenTickerFields {
    pub errors: Option<KrakenErrorList>,
    pub last_trades: Option<Vec<Option<String>>>,
}

/// The first of two checks that fails, if any.
pub open spec fn first_error(a: Option<Seq<char>>, b: Option<Seq<char>>) -> Option<Seq<char>> {
    if a is Some {
        a
    } else {
        b
    }
}

/// The error of an integer field: `missing` when it is absent.
pub open spec fn integer_error(value: Option<i64>, missing: Seq<char>) -> Option<Seq<char>> {
    if value is Some {
        None
    } else {
        Some(missing)
    }
}

/// The error of a boolean field: `missing` when it is absent.
pub open spec fn boolean_error(value: Option<bool>, missing: Seq<char>) -> Option<Seq<char>> {
    if value is Some {
        None
    } else {
        Some(missing)
    }
}

/// The error of a time field: `missing` when it is absent, the timestamp's
/// refusal when it is negative.
pub open spec fn timestamp_error(value: Option<i64>, missing: Seq<char>) -> Option<Seq<char>> {
    match value {
        None => Some(missing),
        Some(t) => if t < 0 {
            Some("timestamp must be non-negative"@)
        } else {
            None
        },
    }
}

/// The error of a decimal field: `missing` when it is absent, the reader's
/// error after `invalid` when it is no decimal, the refusal when its value is
/// not admitted.
pub open spec fn decimal_error(field: DecimalText, missing: Seq<char>, invalid: Seq<char>) -> Option<
    Seq<char>,
> {
    match field {
        DecimalText::Missing => Some(missing),
        DecimalText::Unparsable(e) => Some(invalid + e@),
        DecimalText::Rejected(m) => Some(m@),
        DecimalText::Accepted(_) => None,
    }
}

/// The text of an accepted decimal field.
pub open spec fn decimal_value(field: DecimalText) -> Seq<char> {
    match field {
        DecimalText::Accepted(t) => t@,
        _ => Seq::empty(),
    }
}

/// The error of an absent integer field `name`.
pub open spec fn missing_integer(name: Seq<char>) -> Seq<char> {
    "missing integer field: "@ + name
}

/// The error of an absent decimal field `name`.
pub open spec fn missing_string(name: Seq<char>) -> Seq<char> {
    "missing string field: "@ + name
}

/// The error of an absent boolean field `name`.
pub open spec fn missing_boolean(name: Seq<char>) -> Seq<char> {
    "missing boolean field: "@ + name
}

/// What precedes the reader's error for a decimal field `name`.
pub open spec fn invalid_float(name: Seq<char>) -> Seq<char> {
    "invalid float for "@ + name + ": "@
}

/// The error of an absent integer entry at `index` of a record.
pub open spec fn missing_integer_at(index: nat) -> Seq<char> {
    "missing integer field at index "@ + decimal(index)
}

/// The error of an absent decimal entry at `index` of a record.
pub open spec fn missing_string_at(index: nat) -> Seq<char> {
    "missing string field at index "@ + decimal(index)
}

/// What precedes the reader's error for a decimal entry at `index`.
pub open spec fn invalid_float_at(index: nat) -> Seq<char> {
    "invalid float at index "@ + decimal(index) + ": "@
}

/// The error of a named decimal field.
pub open spec fn named_decimal_error(field: DecimalText, name: Seq<char>) -> Option<Seq<char>> {
    decimal_error(field, missing_string(name), invalid_float(name))
}

/// The first error of the fields of a kline stream payload after its
/// interval, in the order `t`, `T`, `o`, `h`, `l`, `c`, `v`, `n`, `x`.
pub open spec fn kline_fields_error(k: KlineFields) -> Option<Seq<char>> {
    first_error(
        timestamp_error(k.open_time_ms, missing_integer("t"@)),
        first_error(
            timestamp_error(k.close_time_ms, missing_integer("T"@)),
            first_error(
                named_decimal_error(k.open, "o"@),
                first_error(
                    named_decimal_error(k.high, "h"@),
                    first_error(
                        named_decimal_error(k.low, "l"@),
                        first_error(
                            named_decimal_error(k.close, "c"@),
                            first_error(
                                named_decimal_error(k.volume, "v"@),
                                first_error(
                                    integer_error(k.trade_count, missing_integer("n"@)),
                                    boolean_error(k.is_final, missing_boolean("x"@)),
                                ),
                            ),
                        ),
                    ),
                ),
            ),
        ),
    )
}

/// The error of a kline stream payload: its interval first, then its fields.
pub open spec fn kline_payload_error(k: KlineFields) -> Option<Seq<char>> {
    match k.interval {
        None => Some("missing kline interval"@),
        Some(i) => if timeframe_from_label(i@) is None {
            Some("unsupported timeframe"@)
        } else {
            kline_fields_error(k)
        },
    }
}

/// The error of a mini-ticker payload, in the order `o`, `c`, `v`, `E`.
pub open spec fn mini_ticker_error(m: MiniTickerFields) -> Option<Seq<char>> {
    first_error(
        named_decimal_error(m.open, "o"@),
        first_error(
            named_decimal_error(m.close, "c"@),
            first_error(
                named_decimal_error(m.volume, "v"@),
                timestamp_error(m.event_time_ms, missing_integer("E"@)),
            ),
        ),
    )
}

/// The error of a combined-stream message, if it is refused.
pub open spec fn combined_stream_error(message: CombinedStreamMessage) -> Option<Seq<char>> {
    match message.stream {
        None => Some("missing stream field"@),
        Some(s) => match message.data {
            None => Some("missing data field"@),
            Some(d) => match stream_kind(s@) {
                BinanceStreamKind::Kline => match d.kline {
                    None => Some("missing kline payload"@),
                    Some(k) => kline_payload_error(k),
                },
                BinanceStreamKind::MiniTicker => mini_ticker_error(d.mini_ticker),
                BinanceStreamKind::Unsupported => Some(
                    "unsupported combined stream payload: "@ + s@,
                ),
            },
        },
    }
}

/// The candle an accepted kline stream payload yields.
pub open spec fn is_kline_update_of(k: KlineFields, u: KlineUpdate) -> bool {
    &&& k.interval matches Some(i) && timeframe_from_label(i@) == Some(u.timeframe)
    &&& u.open_time == Timestamp(k.open_time_ms->0)
    &&& u.close_time == Timestamp(k.close_time_ms->0)
    &&& u.open@ == decimal_value(k.open)
    &&& u.high@ == decimal_value(k.high)
    &&& u.low@ == decimal_value(k.low)
    &&& u.close@ == decimal_value(k.close)
    &&& u.volume@ == decimal_value(k.volume)
    &&& u.trade_count == k.trade_count->0 as u64
    &&& u.is_final == k.is_final->0
}

/// The update an accepted mini-ticker payload yields.
pub open spec fn is_mini_ticker_update_of(m: MiniTickerFields, u: MiniTickerUpdate) -> bool {
    &&& u.open@ == decimal_value(m.open)
    &&& u.close@ == decimal_value(m.close)
    &&& u.volume@ == decimal_value(m.volume)
    &&& u.observed_at == Timestamp(m.event_time_ms->0)
}

/// The event an accepted combined-stream message yields.
pub open spec fn is_stream_event_of(message: CombinedStreamMessage, event: StreamEvent) -> bool {
    let d = message.data->0;
    match stream_kind(message.stream->0@) {
        BinanceStreamKind::Kline => event matches StreamEvent::Kline(u) && is_kline_update_of(
            d.kline->0,
            u,
        ),
        BinanceStreamKind::MiniTicker => event matches StreamEvent::MiniTicker(u)
            && is_mini_ticker_update_of(d.mini_ticker, u),
        BinanceStreamKind::Unsupported => false,
    }
}

/// The first error of a klines record, in the order of its positions 0 to
/// 6, then 8.
pub open spec fn kline_record_error(r: KlineRecordFields) -> Option<Seq<char>> {
    first_error(
        timestamp_error(r.open_time_ms, missing_integer_at(0)),
        first_error(
            indexed_decimal_error(r.open, 1),
            first_error(
                indexed_decimal_error(r.high, 2),
                first_error(
                    indexed_decimal_error(r.low, 3),
                    first_error(
                        indexed_decimal_error(r.close, 4),
                        first_error(
                            indexed_decimal_error(r.volume, 5),
                            first_error(
                                timestamp_error(r.close_time_ms, missing_integer_at(6)),
                                integer_error(r.trade_count, missing_integer_at(8)),
                            ),
                        ),
                    ),
                ),
            ),
        ),
    )
}

/// The error of a decimal entry at `index` of a record.
pub open spec fn indexed_decimal_error(field: DecimalText, index: nat) -> Option<Seq<char>> {
    decimal_error(field, missing_string_at(index), invalid_float_at(index))
}

/// The closed candle of `timeframe` an accepted klines record yields.
pub open spec fn is_record_update_of(r: KlineRecordFields, timeframe: Timeframe, u: KlineUpdate) -> bool {
    &&& u.timeframe == timeframe
    &&& u.open_time == Timestamp(r.open_time_ms->0)
    &&& u.close_time == Timestamp(r.close_time_ms->0)
    &&& u.open@ == decimal_value(r.open)
    &&& u.high@ == decimal_value(r.high)
    &&& u.low@ == decimal_value(r.low)
    &&& u.close@ == decimal_value(r.close)
    &&& u.volume@ == decimal_value(r.volume)
    &&& u.trade_count == r.trade_count->0 as u64
    &&& u.is_final
}

/// The error of the first refused record, if any.
pub open spec fn records_error(records: Seq<KlineRecordFields>) -> Option<Seq<char>>
    decreases records.len(),
{
    if records.len() == 0 {
        None
    } else {
        first_error(kline_record_error(records[0]), records_error(records.drop_first()))
    }
}

/// The error of a klines answer, if it is refused.
pub open spec fn klines_response_error(response: KlinesResponseFields) -> Option<Seq<char>> {
    match response.records {
        None => Some("expected kline response array"@),
        Some(records) => records_error(records@),
    }
}

/// The error of a market summary, in the order `lastPrice`, `volume`,
/// `closeTime`, `priceChangePercent`.
pub open spec fn market_summary_error(f: MarketSummaryFields) -> Option<Seq<char>> {
    first_error(
        named_decimal_error(f.last_price, "lastPrice"@),
        first_error(
            named_decimal_error(f.volume, "volume"@),
            first_error(
                timestamp_error(f.close_time_ms, missing_integer("closeTime"@)),
                named_decimal_error(f.price_change_percent, "priceChangePercent"@),
            ),
        ),
    )
}

/// The error of a Kraken ticker answer, if it is refused: its error array
/// must be there and empty, its result an object with a ticker, whose last
/// trade price is read.
pub open spec fn kraken_ticker_error(f: KrakenTickerFields) -> Option<Seq<char>> {
    match f.errors {
        None => Some("missing Kraken error field"@),
        Some(errors) => if errors.count > 0 {
            Some("Kraken ticker request returned errors: "@ + errors.rendered@)
        } else {
            match f.last_trades {
                None => Some("missing Kraken ticker result"@),
                Some(trades) => if trades@.len() == 0 {
                    Some("Kraken ticker result is empty"@)
                } else {
                    decimal_error(
                        trades@[0],
                        "missing Kraken last trade price"@,
                        "invalid Kraken last trade price: "@,
                    )
                },
            }
        },
    }
}

/// The fields of a kline object `k` taken out of it.
pub open spec fn is_raw_kline_of(k: JsonValue, r: RawKlineFields) -> bool {
    &&& optional_text(r.interval) == json_text(json_field(k, "i"@))
    &&& r.open_time_ms == json_integer(json_field(k, "t"@))
    &&& r.close_time_ms == json_integer(json_field(k, "T"@))
    &&& optional_text(r.open) == json_text(json_field(k, "o"@))
    &&& optional_text(r.high) == json_text(json_field(k, "h"@))
    &&& optional_text(r.low) == json_text(json_field(k, "l"@))
    &&& optional_text(r.close) == json_text(json_field(k, "c"@))
    &&& optional_text(r.volume) == json_text(json_field(k, "v"@))
    &&& r.trade_count == json_integer(json_field(k, "n"@))
    &&& r.is_final == json_boolean(json_field(k, "x"@))
}

/// The mini-ticker fields of a `data` object taken out of it.
pub open spec fn is_raw_mini_ticker_of(data: JsonValue, r: RawMiniTickerFields) -> bool {
    &&& optional_text(r.open) == json_text(json_field(data, "o"@))
    &&& optional_text(r.close) == json_text(json_field(data, "c"@))
    &&& optional_text(r.volume) == json_text(json_field(data, "v"@))
    &&& r.event_time_ms == json_integer(json_field(data, "E"@))
}

/// A combined-stream message taken out of its document: the `stream` text,
/// and, when there is a `data` value, its mini-ticker fields and its `k`
/// object's fields.
pub open spec fn is_raw_combined_stream_of(document: JsonValue, r: RawCombinedStreamMessage) -> bool {
    &&& optional_text(r.stream) == json_text(json_field(document, "stream"@))
    &&& match json_field(document, "data"@) {
        None => r.data is None,
        Some(data) => r.data matches Some(d) && is_raw_mini_ticker_of(data, d.mini_ticker)
            && match json_field(data, "k"@) {
            None => d.kline is None,
            Some(k) => d.kline matches Some(rk) && is_raw_kline_of(k, rk),
        },
    }
}

/// A market summary taken out of its document.
pub open spec fn is_raw_market_summary_of(document: JsonValue, r: RawMarketSummaryFields) -> bool {
    &&& optional_text(r.last_price) == json_text(json_field(document, "lastPrice"@))
    &&& optional_text(r.volume) == json_text(json_field(document, "volume"@))
    &&& r.close_time_ms == json_integer(json_field(document, "closeTime"@))
    &&& optional_text(r.price_change_percent) == json_text(
        json_field(document, "priceChangePercent"@),
    )
}

/// A klines record taken out of its JSON value, by position.
pub open spec fn is_raw_record_of(record: JsonValue, r: RawKlineRecordFields) -> bool {
    &&& r.open_time_ms == json_integer(json_item(record, 0))
    &&& optional_text(r.open) == json_text(json_item(record, 1))
    &&& optional_text(r.high) == json_text(json_item(record, 2))
    &&& optional_text(r.low) == json_text(json_item(record, 3))
    &&& optional_text(r.close) == json_text(json_item(record, 4))
    &&& optional_text(r.volume) == json_text(json_item(record, 5))
    &&& r.close_time_ms == json_integer(json_item(record, 6))
    &&& r.trade_count == json_integer(json_item(record, 8))
}

/// A klines answer taken out of its document: its records when it is an
/// array, each taken out in turn.
pub open spec fn is_raw_klines_of(document: JsonValue, r: RawKlinesResponseFields) -> bool {
    match document {
        JsonValue::Array(records) => r.records matches Some(raw) && raw@.len() == records@.len()
            && forall|i: int|
            0 <= i < records@.len() ==> is_raw_record_of(records@[i], #[trigger] raw@[i]),
        _ => r.records is None,
    }
}

/// The last trade price text of a Kraken ticker: the first entry of its `c`
/// array, when that is a string.
pub open spec fn kraken_last_trade(ticker: JsonValue) -> Option<Seq<char>> {
    match json_field(ticker, "c"@) {
        Some(c) => json_text(json_item(c, 0)),
        None => None,
    }
}

/// A Kraken ticker answer taken out of the document of `payload`: the count
/// of its `error` array and, when that is not empty, its rendering; the last
/// trade price of each ticker of its `result` object, in order.
pub open spec fn is_raw_kraken_of(payload: Seq<char>, document: JsonValue, r: RawKrakenTickerFields) -> bool {
    &&& match json_field(document, "error"@) {
        Some(JsonValue::Array(errors)) => r.errors matches Some(e) && e.count == errors@.len() && (
        e.count > 0 ==> e.rendered@ == json_array_debug(payload, "error"@)),
        _ => r.errors is None,
    }
    &&& match json_field(document, "result"@) {
        Some(JsonValue::Object(tickers)) => r.last_trades matches Some(trades) && trades@.len()
            == tickers@.len() && forall|i: int|
            0 <= i < tickers@.len() ==> optional_text(#[trigger] trades@[i]) == kraken_last_trade(
                tickers@[i].1,
            ),
        _ => r.last_trades is None,
    }
}

/// The fields of a kline object taken out of it.
pub fn raw_kline_of(k: &JsonValue) -> (r: RawKlineFields)
    ensures
        is_raw_kline_of(*k, r),
{
    RawKlineFields {
        interval: text_of(field_of(k, "i")),
        open_time_ms: integer_of(field_of(k, "t")),
        close_time_ms: integer_of(field_of(k, "T")),
        open: text_of(field_of(k, "o")),
        high: text_of(field_of(k, "h")),
        low: text_of(field_of(k, "l")),
        close: text_of(field_of(k, "c")),
        volume: text_of(field_of(k, "v")),
        trade_count: integer_of(field_of(k, "n")),
        is_final: boolean_of(field_of(k, "x")),
    }
}

/// The mini-ticker fields of a `data` object taken out of it.
pub fn raw_mini_ticker_of(data: &JsonValue) -> (r: RawMiniTickerFields)
    ensures
        is_raw_mini_ticker_of(*data, r),
{
    RawMiniTickerFields {
        open: text_of(field_of(data, "o")),
        close: text_of(field_of(data, "c")),
        volume: text_of(field_of(data, "v")),
        event_time_ms: integer_of(field_of(data, "E")),
    }
}

/// A klines record taken out of its JSON value.
pub fn raw_record_of(record: &JsonValue) -> (r: RawKlineRecordFields)
    ensures
        is_raw_record_of(*record, r),
{
    RawKlineRecordFields {
        open_time_ms: integer_of(item_of(record, 0)),
        open: text_of(item_of(record, 1)),
        high: text_of(item_of(record, 2)),
        low: text_of(item_of(record, 3)),
        close: text_of(item_of(record, 4)),
        volume: text_of(item_of(record, 5)),
        close_time_ms: integer_of(item_of(record, 6)),
        trade_count: integer_of(item_of(record, 8)),
    }
}

/// The last trade price text of a Kraken ticker.
pub fn kraken_last_trade_of(ticker: &JsonValue) -> (res: Option<String>)
    ensures
        optional_text(res) == kraken_last_trade(*ticker),
{
    match field_of(ticker, "c") {
        Some(c) => text_of(item_of(c, 0)),
        None => None,
    }
}

/// A combined-stream message taken out of its document.
pub fn raw_combined_stream_of(document: &JsonValue) -> (r: RawCombinedStreamMessage)
    ensures
        is_raw_combined_stream_of(*document, r),
{
    let data = match field_of(document, "data") {
        Some(d) => Some(
            RawStreamData {
                kline: match field_of(d, "k") {
                    Some(k) => Some(raw_kline_of(k)),
                    None => None,
                },
                mini_ticker: raw_mini_ticker_of(d),
            },
        ),
        None => None,
    };
    RawCombinedStreamMessage { stream: text_of(field_of(document, "stream")), data }
}

/// A latest-price answer taken out of its document.
pub fn raw_latest_price_of(document: &JsonValue) -> (r: RawLatestPriceFields)
    ensures
        optional_text(r.price) == json_text(json_field(*document, "price"@)),
{
    RawLatestPriceFields { price: text_of(field_of(document, "price")) }
}

/// A 24-hour market summary taken out of its document.
pub fn raw_market_summary_of(document: &JsonValue) -> (r: RawMarketSummaryFields)
    ensures
        is_raw_market_summary_of(*document, r),
{
    RawMarketSummaryFields {
        last_price: text_of(field_of(document, "lastPrice")),
        volume: text_of(field_of(document, "volume")),
        close_time_ms: integer_of(field_of(document, "closeTime")),
        price_change_percent: text_of(field_of(document, "priceChangePercent")),
    }
}

/// A klines answer taken out of its document.
pub fn raw_klines_of(document: &JsonValue) -> (r: RawKlinesResponseFields)
    ensures
        is_raw_klines_of(*document, r),
{
    match document {
        JsonValue::Array(records) => {
            let n = records.len();
            let mut raw: Vec<RawKlineRecordFields> = Vec::new();
            let mut i: usize = 0;
            while i < n
                invariant
                    n == records@.len(),
                    i <= n,
                    raw@.len() == i,
                    forall|j: int| 0 <= j < i ==> is_raw_record_of(records@[j], #[trigger] raw@[j]),
                decreases n - i,
            {
                raw.push(raw_record_of(&records[i]));
                i = i + 1;
            }
            RawKlinesResponseFields { records: Some(raw) }
        },
        _ => RawKlinesResponseFields { records: None },
    }
}

/// A Kraken ticker answer taken out of its document, its non-empty error
/// array rendered as `rendering` holds it.
pub fn raw_kraken_ticker_of(document: &JsonValue, rendering: Option<String>) -> (r:
    RawKrakenTickerFields)
    ensures
        match json_field(*document, "error"@) {
            Some(JsonValue::Array(errors)) => r.errors matches Some(e) && e.count == errors@.len()
                && (e.count > 0 ==> e.rendered@ == match rendering {
                Some(text) => text@,
                None => Seq::<char>::empty(),
            }),
            _ => r.errors is None,
        },
        match json_field(*document, "result"@) {
            Some(JsonValue::Object(tickers)) => r.last_trades matches Some(trades) && trades@.len()
                == tickers@.len() && forall|i: int|
                0 <= i < tickers@.len() ==> optional_text(#[trigger] trades@[i])
                    == kraken_last_trade(tickers@[i].1),
            _ => r.last_trades is None,
        },
{
    let errors = match field_of(document, "error") {
        Some(JsonValue::Array(items)) => {
            let rendered = match rendering {
                Some(text) => text,
                None => String::new(),
            };
            Some(KrakenErrorList { count: items.len(), rendered })
        },
        _ => None,
    };
    let last_trades = match field_of(document, "result") {
        Some(JsonValue::Object(tickers)) => {
            let n = tickers.len();
            let mut trades: Vec<Option<String>> = Vec::new();
            let mut i: usize = 0;
            while i < n
                invariant
                    n == tickers@.len(),
                    i <= n,
                    trades@.len() == i,
                    forall|j: int|
                        0 <= j < i ==> optional_text(#[trigger] trades@[j]) == kraken_last_trade(
                            tickers@[j].1,
                        ),
                decreases n - i,
            {
                trades.push(kraken_last_trade_of(&tickers[i].1));
                i = i + 1;
            }
            Some(trades)
        },
        _ => None,
    };
    RawKrakenTickerFields { errors, last_trades }
}

/// `a` followed by `b`.
fn concat(a: &str, b: &str) -> (s: String)
    ensures
        s@ == a@ + b@,
{
    let mut s = a.to_owned();
    s.append(b);
    s
}

/// `a`, the decimal rendering of `n`, then `b`.
fn concat_index(a: &str, n: u64, b: &str) -> (s: String)
    ensures
        s@ == a@ + decimal(n as nat) + b@,
{
    let mut s = a.to_owned();
    let digits = u64_to_decimal(n);
    s.append(digits.as_str());
    s.append(b);
    s
}

/// `a` followed by the decimal rendering of `n`.
fn concat_decimal(a: &str, n: u64) -> (s: String)
    ensures
        s@ == a@ + decimal(n as nat),
{
    let mut s = a.to_owned();
    let digits = u64_to_decimal(n);
    s.append(digits.as_str());
    s
}

/// Reads an integer field.
fn read_integer(value: Option<i64>, missing: String) -> (res: Result<i64, String>)
    ensures
        match integer_error(value, missing@) {
            Some(e) => res matches Err(m) && m@ == e,
            None => res == Ok::<i64, String>(value->0),
        },
{
    match value {
        Some(v) => Ok(v),
        None => Err(missing),
    }
}

/// Reads a boolean field.
fn read_boolean(value: Option<bool>, missing: String) -> (res: Result<bool, String>)
    ensures
        match boolean_error(value, missing@) {
            Some(e) => res matches Err(m) && m@ == e,
            None => res == Ok::<bool, String>(value->0),
        },
{
    match value {
        Some(v) => Ok(v),
        None => Err(missing),
    }
}

/// Reads a time field.
fn read_timestamp(value: Option<i64>, missing: String) -> (res: Result<Timestamp, String>)
    ensures
        match timestamp_error(value, missing@) {
            Some(e) => res matches Err(m) && m@ == e,
            None => res == Ok::<Timestamp, String>(Timestamp(value->0)),
        },
{
    match value {
        Some(v) => match Timestamp::new(v) {
            Ok(t) => Ok(t),
            Err(e) => Err(e.to_owned()),
        },
        None => Err(missing),
    }
}

/// Reads a decimal field.
fn read_decimal(field: &DecimalText, missing: String, invalid: &str) -> (res: Result<
    String,
    String,
>)
    ensures
        match decimal_error(*field, missing@, invalid@) {
            Some(e) => res matches Err(m) && m@ == e,
            None => res matches Ok(t) && t@ == decimal_value(*field),
        },
{
    match field {
        DecimalText::Missing => Err(missing),
        DecimalText::Unparsable(e) => Err(concat(invalid, e.as_str())),
        DecimalText::Rejected(m) => Err(m.as_str().to_owned()),
        DecimalText::Accepted(t) => Ok(t.as_str().to_owned()),
    }
}

/// Reads a named decimal field.
fn read_named_decimal(field: &DecimalText, name: &str) -> (res: Result<String, String>)
    ensures
        match named_decimal_error(*field, name@) {
            Some(e) => res matches Err(m) && m@ == e,
            None => res matches Ok(t) && t@ == decimal_value(*field),
        },
{
    let invalid = invalid_float_text(name);
    read_decimal(field, concat("missing string field: ", name), invalid.as_str())
}

/// "invalid float for ", `name`, ": ".
fn invalid_float_text(name: &str) -> (s: String)
    ensures
        s@ == invalid_float(name@),
{
    let mut s = "invalid float for ".to_owned();
    s.append(name);
    s.append(": ");
    s
}

/// Reads a decimal entry at `index` of a record.
fn read_indexed_decimal(field: &DecimalText, index: u64) -> (res: Result<String, String>)
    ensures
        match indexed_decimal_error(*field, index as nat) {
            Some(e) => res matches Err(m) && m@ == e,
            None => res matches Ok(t) && t@ == decimal_value(*field),
        },
{
    let invalid = concat_index("invalid float at index ", index, ": ");
    read_decimal(field, concat_decimal("missing string field at index ", index), invalid.as_str())
}

/// Reads the fields of a kline stream payload.
fn read_kline_payload(k: &KlineFields) -> (res: Result<KlineUpdate, String>)
    ensures
        match kline_payload_error(*k) {
            Some(e) => res matches Err(m) && m@ == e,
            None => res matches Ok(u) && is_kline_update_of(*k, u),
        },
{
    let interval = match &k.interval {
        Some(i) => i,
        None => return Err("missing kline interval".to_owned()),
    };
    let timeframe = Timeframe::from_stream_id(interval.as_str())?;
    let open_time = read_timestamp(k.open_time_ms, concat("missing integer field: ", "t"))?;
    let close_time = read_timestamp(k.close_time_ms, concat("missing integer field: ", "T"))?;
    let open = read_named_decimal(&k.open, "o")?;
    let high = read_named_decimal(&k.high, "h")?;
    let low = read_named_decimal(&k.low, "l")?;
    let close = read_named_decimal(&k.close, "c")?;
    let volume = read_named_decimal(&k.volume, "v")?;
    let trade_count = read_integer(k.trade_count, concat("missing integer field: ", "n"))?;
    let is_final = read_boolean(k.is_final, concat("missing boolean field: ", "x"))?;
    Ok(
        KlineUpdate {
            timeframe,
            open_time,
            close_time,
            open,
            high,
            low,
            close,
            volume,
            trade_count: trade_count as u64,
            is_final,
        },
    )
}

/// Reads the fields of a mini-ticker payload.
fn read_mini_ticker_payload(m: &MiniTickerFields) -> (res: Result<MiniTickerUpdate, String>)
    ensures
        match mini_ticker_error(*m) {
            Some(e) => res matches Err(msg) && msg@ == e,
            None => res matches Ok(u) && is_mini_ticker_update_of(*m, u),
        },
{
    let open = read_named_decimal(&m.open, "o")?;
    let close = read_named_decimal(&m.close, "c")?;
    let volume = read_named_decimal(&m.volume, "v")?;
    let observed_at = read_timestamp(m.event_time_ms, concat("missing integer field: ", "E"))?;
    Ok(MiniTickerUpdate { open, close, volume, observed_at })
}

impl BinanceMarketDataAdapter {
    /// Reads a combined-stream message: its stream name and data must be
    /// there; a kline stream needs its `k` object and a supported interval,
    /// a mini-ticker stream its prices, volume and event time; another
    /// stream is refused.
    pub fn parse_combined_stream_payload(self, message: &CombinedStreamMessage) -> (res: Result<
        StreamEvent,
        String,
    >)
        ensures
            match combined_stream_error(*message) {
                Some(e) => res matches Err(m) && m@ == e,
                None => res matches Ok(event) && is_stream_event_of(*message, event),
            },
    {
        let stream_name = match &message.stream {
            Some(s) => s,
            None => return Err("missing stream field".to_owned()),
        };
        let data = match &message.data {
            Some(d) => d,
            None => return Err("missing data field".to_owned()),
        };
        match self.stream_payload_kind(stream_name.as_str()) {
            BinanceStreamKind::Kline => {
                let kline = match &data.kline {
                    Some(k) => k,
                    None => return Err("missing kline payload".to_owned()),
                };
                let update = read_kline_payload(kline)?;
                Ok(StreamEvent::Kline(update))
            },
            BinanceStreamKind::MiniTicker => {
                let update = read_mini_ticker_payload(&data.mini_ticker)?;
                Ok(StreamEvent::MiniTicker(update))
            },
            BinanceStreamKind::Unsupported => Err(
                self.unsupported_stream_error(stream_name.as_str()),
            ),
        }
    }

    /// Parses a combined-stream message and takes out its fields: `stream`;
    /// of `data`, the mini-ticker fields `o`, `c`, `v`, `E` and the kline
    /// object `k` with `i`, `t`, `T`, `o`, `h`, `l`, `c`, `v`, `n`, `x`.
    pub fn read_combined_stream_fields(self, payload: &str) -> (res: Result<
        RawCombinedStreamMessage,
        String,
    >)
        ensures
            match json_document(payload@) {
                Err(error) => res matches Err(e) && e@ == error,
                Ok(document) => res matches Ok(r) && is_raw_combined_stream_of(document, r),
            },
    {
        let document = parse_json_document(payload)?;
        Ok(raw_combined_stream_of(&document))
    }

    /// Parses a latest-price answer and takes out its `price` text.
    pub fn read_latest_price_fields(self, payload: &str) -> (res: Result<RawLatestPriceFields, String>)
        ensures
            match json_document(payload@) {
                Err(error) => res matches Err(e) && e@ == error,
                Ok(document) => res matches Ok(r) && optional_text(r.price) == json_text(
                    json_field(document, "price"@),
                ),
            },
    {
        let document = parse_json_document(payload)?;
        Ok(raw_latest_price_of(&document))
    }

    /// Parses a 24-hour market summary and takes out `lastPrice`, `volume`,
    /// `closeTime` and `priceChangePercent`.
    pub fn read_market_summary_fields(self, payload: &str) -> (res: Result<
        RawMarketSummaryFields,
        String,
    >)
        ensures
            match json_document(payload@) {
                Err(error) => res matches Err(e) && e@ == error,
                Ok(document) => res matches Ok(r) && is_raw_market_summary_of(document, r),
            },
    {
        let document = parse_json_document(payload)?;
        Ok(raw_market_summary_of(&document))
    }

    /// Parses a klines answer and takes out, when it is an array, the
    /// positions 0 to 6 and 8 of each record.
    pub fn read_klines_response_fields(self, payload: &str) -> (res: Result<
        RawKlinesResponseFields,
        String,
    >)
        ensures
            match json_document(payload@) {
                Err(error) => res matches Err(e) && e@ == error,
                Ok(document) => res matches Ok(r) && is_raw_klines_of(document, r),
            },
    {
        let document = parse_json_document(payload)?;
        Ok(raw_klines_of(&document))
    }

    /// Reads a latest-price answer: its `price` decimal.
    pub fn parse_latest_price_response(self, fields: &LatestPriceFields) -> (res: Result<
        String,
        String,
    >)
        ensures
            match named_decimal_error(fields.price, "price"@) {
                Some(e) => res matches Err(m) && m@ == e,
                None => res matches Ok(t) && t@ == decimal_value(fields.price),
            },
    {
        read_named_decimal(&fields.price, "price")
    }

    /// Reads a 24-hour market summary: last price, volume, close time and
    /// change, in that order.
    pub fn parse_market_summary_response(self, fields: &MarketSummaryFields) -> (res: Result<
        MarketSummaryUpdate,
        String,
    >)
        ensures
            match market_summary_error(*fields) {
                Some(e) => res matches Err(m) && m@ == e,
                None => res matches Ok(u) && u.last_price@ == decimal_value(fields.last_price)
                    && u.volume@ == decimal_value(fields.volume) && u.observed_at == Timestamp(
                    fields.close_time_ms->0,
                ) && u.price_change_percent@ == decimal_value(fields.price_change_percent),
            },
    {
        let last_price = read_named_decimal(&fields.last_price, "lastPrice")?;
        let volume = read_named_decimal(&fields.volume, "volume")?;
        let observed_at = read_timestamp(
            fields.close_time_ms,
            concat("missing integer field: ", "closeTime"),
        )?;
        let price_change_percent = read_named_decimal(
            &fields.price_change_percent,
            "priceChangePercent",
        )?;
        Ok(MarketSummaryUpdate { last_price, volume, observed_at, price_change_percent })
    }

    /// Reads one record of a klines answer into a closed candle of
    /// `timeframe`.
    pub fn parse_kline_record(self, timeframe: Timeframe, record: &KlineRecordFields) -> (res:
        Result<KlineUpdate, String>)
        ensures
            match kline_record_error(*record) {
                Some(e) => res matches Err(m) && m@ == e,
                None => res matches Ok(u) && is_record_update_of(*record, timeframe, u),
            },
    {
        let open_time = read_timestamp(
            record.open_time_ms,
            concat_decimal("missing integer field at index ", 0),
        )?;
        let open = read_indexed_decimal(&record.open, 1)?;
        let high = read_indexed_decimal(&record.high, 2)?;
        let low = read_indexed_decimal(&record.low, 3)?;
        let close = read_indexed_decimal(&record.close, 4)?;
        let volume = read_indexed_decimal(&record.volume, 5)?;
        let close_time = read_timestamp(
            record.close_time_ms,
            concat_decimal("missing integer field at index ", 6),
        )?;
        let trade_count = read_integer(
            record.trade_count,
            concat_decimal("missing integer field at index ", 8),
        )?;
        Ok(
            KlineUpdate {
                timeframe,
                open_time,
                close_time,
                open,
                high,
                low,
                close,
                volume,
                trade_count: trade_count as u64,
                is_final: true,
            },
        )
    }

    /// Reads a klines answer: an array of records, each read into a closed
    /// candle of `timeframe`; the first refused record refuses the answer.
    pub fn parse_klines_response(self, timeframe: Timeframe, response: &KlinesResponseFields) -> (res:
        Result<Vec<KlineUpdate>, String>)
        ensures
            match klines_response_error(*response) {
                Some(e) => res matches Err(m) && m@ == e,
                None => res matches Ok(candles) && candles@.len() == response.records->0@.len()
                    && forall|i: int|
                    0 <= i < candles@.len() ==> is_record_update_of(
                        #[trigger] response.records->0@[i],
                        timeframe,
                        candles@[i],
                    ),
            },
    {
        let records = match &response.records {
            Some(r) => r,
            None => return Err("expected kline response array".to_owned()),
        };
        let n = records.len();
        let mut candles: Vec<KlineUpdate> = Vec::new();
        let mut i: usize = 0;
        assert(records@.subrange(0, n as int) =~= records@);
        while i < n
            invariant
                response.records == Some(*records),
                n == records@.len(),
                i <= n,
                candles@.len() == i,
                forall|j: int|
                    0 <= j < i ==> is_record_update_of(
                        #[trigger] records@[j],
                        timeframe,
                        candles@[j],
                    ),
                records_error(records@) == records_error(records@.subrange(i as int, n as int)),
            decreases n - i,
        {
            let ghost rest = records@.subrange(i as int, n as int);
            assert(rest[0] == records@[i as int]);
            assert(rest.drop_first() =~= records@.subrange(i + 1, n as int));
            assert(records_error(rest) == first_error(
                kline_record_error(records@[i as int]),
                records_error(rest.drop_first()),
            ));
            let candle = match self.parse_kline_record(timeframe, &records[i]) {
                Ok(c) => c,
                Err(e) => return Err(e),
            };
            candles.push(candle);
            i = i + 1;
        }
        assert(records@.subrange(n as int, n as int) =~= Seq::<KlineRecordFields>::empty());
        Ok(candles)
    }
}

impl KrakenMarketDataAdapter {
    /// Parses a Kraken ticker answer and takes out its `error` array (count
    /// and, when not empty, rendering) and the last trade price text of each
    /// ticker of its `result` object.
    pub fn read_ticker_fields(self, payload: &str) -> (res: Result<RawKrakenTickerFields, String>)
        ensures
            match json_document(payload@) {
                Err(error) => res matches Err(e) && e@ == error,
                Ok(document) => res matches Ok(r) && is_raw_kraken_of(payload@, document, r),
            },
    {
        let document = parse_json_document(payload)?;
        let rendering = match field_of(&document, "error") {
            Some(JsonValue::Array(items)) => if items.len() > 0 {
                json_array_debug_text(payload, "error")
            } else {
                None
            },
            _ => None,
        };
        Ok(raw_kraken_ticker_of(&document, rendering))
    }

    /// Reads a Kraken ticker answer: a non-empty error array refuses it;
    /// otherwise the last trade price of its first ticker.
    pub fn parse_reference_price_response(self, fields: &KrakenTickerFields) -> (res: Result<
        String,
        String,
    >)
        ensures
            match kraken_ticker_error(*fields) {
                Some(e) => res matches Err(m) && m@ == e,
                None => res matches Ok(t) && t@ == decimal_value(fields.last_trades->0@[0]),
            },
    {
        let errors = match &fields.errors {
            Some(e) => e,
            None => return Err("missing Kraken error field".to_owned()),
        };
        if errors.count > 0 {
            return Err(concat("Kraken ticker request returned errors: ", errors.rendered.as_str()));
        }
        let trades = match &fields.last_trades {
            Some(t) => t,
            None => return Err("missing Kraken ticker result".to_owned()),
        };
        if trades.len() == 0 {
            return Err("Kraken ticker result is empty".to_owned());
        }
        read_decimal(
            &trades[0],
            "missing Kraken last trade price".to_owned(),
            "invalid Kraken last trade price: ",
        )
    }
}

} // verus!

