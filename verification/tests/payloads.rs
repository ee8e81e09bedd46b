use market_intelligence::adapters::{BinanceMarketDataAdapter, KrakenMarketDataAdapter};
use market_intelligence::analytics::TimeframeDerivationEngine;
use market_intelligence::json::JsonValue;
use market_intelligence::market_data::{Timeframe, Timestamp};
use market_intelligence::payloads::{
    raw_combined_stream_of, raw_kraken_ticker_of, raw_record_of, CombinedStreamMessage,
    DecimalText, KlineFields, KlineRecordFields, KlinesResponseFields, KrakenErrorList,
    KrakenTickerFields, LatestPriceFields, MarketSummaryFields, MiniTickerFields,
    RawKlineRecordFields, StreamData, StreamEvent,
};

// The floating-point reading of decimal texts is the program's; these
// helpers do it as the program does, so the library's checks can be run.
fn decimal(text: Option<String>, admits_negative: bool, refusal: &str) -> DecimalText {
    match text {
        None => DecimalText::Missing,
        Some(text) => match text.parse::<f64>() {
            Err(error) => DecimalText::Unparsable(error.to_string()),
            Ok(number) if !admits_negative && !(number.is_finite() && number >= 0.0) => {
                DecimalText::Rejected(refusal.to_owned())
            }
            Ok(_) => DecimalText::Accepted(text),
        },
    }
}

fn price(text: Option<String>) -> DecimalText {
    decimal(text, false, "price must be finite and non-negative")
}

fn volume(text: Option<String>) -> DecimalText {
    decimal(text, false, "volume must be finite and non-negative")
}

fn plain(text: Option<String>) -> DecimalText {
    decimal(text, true, "")
}

fn combined_message(payload: &str) -> CombinedStreamMessage {
    let raw = BinanceMarketDataAdapter
        .read_combined_stream_fields(payload)
        .expect("test payload is JSON");
    CombinedStreamMessage {
        stream: raw.stream,
        data: raw.data.map(|data| StreamData {
            kline: data.kline.map(|k| KlineFields {
                interval: k.interval,
                open_time_ms: k.open_time_ms,
                close_time_ms: k.close_time_ms,
                open: price(k.open),
                high: price(k.high),
                low: price(k.low),
                close: price(k.close),
                volume: volume(k.volume),
                trade_count: k.trade_count,
                is_final: k.is_final,
            }),
            mini_ticker: MiniTickerFields {
                open: plain(data.mini_ticker.open),
                close: price(data.mini_ticker.close),
                volume: volume(data.mini_ticker.volume),
                event_time_ms: data.mini_ticker.event_time_ms,
            },
        }),
    }
}

fn record_fields(record: RawKlineRecordFields) -> KlineRecordFields {
    KlineRecordFields {
        open_time_ms: record.open_time_ms,
        open: price(record.open),
        high: price(record.high),
        low: price(record.low),
        close: price(record.close),
        volume: volume(record.volume),
        close_time_ms: record.close_time_ms,
        trade_count: record.trade_count,
    }
}

fn klines_fields(payload: &str) -> KlinesResponseFields {
    let raw = BinanceMarketDataAdapter
        .read_klines_response_fields(payload)
        .expect("test payload is JSON");
    KlinesResponseFields {
        records: raw.records.map(|records| records.into_iter().map(record_fields).collect()),
    }
}

fn kraken_fields(payload: &str) -> KrakenTickerFields {
    let raw = KrakenMarketDataAdapter.read_ticker_fields(payload).expect("test payload is JSON");
    KrakenTickerFields {
        errors: raw.errors,
        last_trades: raw.last_trades.map(|trades| trades.into_iter().map(price).collect()),
    }
}

fn number(n: i64) -> JsonValue {
    JsonValue::Number(Some(n), n.to_string())
}

fn text(s: &str) -> JsonValue {
    JsonValue::Text(s.to_owned())
}

fn as_float(text: &str) -> f64 {
    text.parse::<f64>().expect("accepted decimal")
}

fn accepted(text: &str) -> DecimalText {
    DecimalText::Accepted(text.to_owned())
}

fn full_kline_fields() -> KlineFields {
    KlineFields {
        interval: Some("1m".to_owned()),
        open_time_ms: Some(1_710_000_060_000),
        close_time_ms: Some(1_710_000_119_999),
        open: accepted("1"),
        high: accepted("2"),
        low: accepted("0.5"),
        close: accepted("1.5"),
        volume: accepted("10"),
        trade_count: Some(3),
        is_final: Some(true),
    }
}

fn kline_message(kline: Option<KlineFields>) -> CombinedStreamMessage {
    CombinedStreamMessage {
        stream: Some("btcusdt@kline_1m".to_owned()),
        data: Some(StreamData {
            kline,
            mini_ticker: MiniTickerFields {
                open: DecimalText::Missing,
                close: DecimalText::Missing,
                volume: DecimalText::Missing,
                event_time_ms: None,
            },
        }),
    }
}

#[test]
fn parses_latest_price_response() {
    let adapter = BinanceMarketDataAdapter;
    let raw = adapter
        .read_latest_price_fields(r#"{"symbol":"BTCUSDT","price":"68450.12"}"#)
        .expect("price response is JSON");
    let price_text = adapter
        .parse_latest_price_response(&LatestPriceFields { price: price(raw.price) })
        .expect("price response should parse");

    assert_eq!(as_float(&price_text), 68_450.12);
}

#[test]
fn parses_kraken_reference_price_response() {
    let adapter = KrakenMarketDataAdapter;
    let fields = kraken_fields(
        r#"{
            "error":[],
            "result":{
                "XXBTZUSD":{
                    "a":["68460.1","1","1.000"],
                    "b":["68450.1","1","1.000"],
                    "c":["68455.12","0.001"],
                    "v":["100.0","200.0"]
                }
            }
        }"#,
    );
    let price_text = adapter
        .parse_reference_price_response(&fields)
        .expect("Kraken ticker response should parse");

    assert_eq!(as_float(&price_text), 68_455.12);
}

#[test]
fn rejects_kraken_reference_price_errors() {
    let adapter = KrakenMarketDataAdapter;
    let fields = kraken_fields(r#"{"error":["EQuery:Unknown asset pair"],"result":{}}"#);
    let error = adapter
        .parse_reference_price_response(&fields)
        .expect_err("Kraken ticker errors should be surfaced");

    assert!(error.contains("Unknown asset pair"));
    assert!(error.starts_with("Kraken ticker request returned errors: "));
}

#[test]
fn kraken_answer_errors_by_field() {
    let adapter = KrakenMarketDataAdapter;
    let no_errors = || Some(KrakenErrorList { count: 0, rendered: "[]".to_owned() });
    let fields = KrakenTickerFields { errors: None, last_trades: None };
    assert_eq!(adapter.parse_reference_price_response(&fields), Err("missing Kraken error field".to_owned()));
    let fields = KrakenTickerFields { errors: no_errors(), last_trades: None };
    assert_eq!(adapter.parse_reference_price_response(&fields), Err("missing Kraken ticker result".to_owned()));
    let fields = KrakenTickerFields { errors: no_errors(), last_trades: Some(Vec::new()) };
    assert_eq!(adapter.parse_reference_price_response(&fields), Err("Kraken ticker result is empty".to_owned()));
    let fields = KrakenTickerFields { errors: no_errors(), last_trades: Some(vec![DecimalText::Missing]) };
    assert_eq!(
        adapter.parse_reference_price_response(&fields),
        Err("missing Kraken last trade price".to_owned())
    );
    let fields = KrakenTickerFields {
        errors: no_errors(),
        last_trades: Some(vec![DecimalText::Unparsable("invalid float literal".to_owned()), accepted("1")]),
    };
    assert_eq!(
        adapter.parse_reference_price_response(&fields),
        Err("invalid Kraken last trade price: invalid float literal".to_owned())
    );
    let fields = KrakenTickerFields { errors: no_errors(), last_trades: Some(vec![accepted("7.5"), accepted("1")]) };
    assert_eq!(adapter.parse_reference_price_response(&fields), Ok("7.5".to_owned()));
}

#[test]
fn parses_market_summary_response_into_live_snapshot() {
    let adapter = BinanceMarketDataAdapter;
    let raw = adapter
        .read_market_summary_fields(
            r#"{
                "symbol":"BTCUSDT",
                "priceChangePercent":"3.12",
                "lastPrice":"68450.12",
                "volume":"8913.3",
                "closeTime":1710000000000
            }"#,
        )
        .expect("market summary is JSON");
    let fields = MarketSummaryFields {
        last_price: price(raw.last_price),
        volume: volume(raw.volume),
        close_time_ms: raw.close_time_ms,
        price_change_percent: plain(raw.price_change_percent),
    };
    let summary = adapter
        .parse_market_summary_response(&fields)
        .expect("market summary should parse");

    assert_eq!(as_float(&summary.last_price), 68_450.12);
    assert_eq!(as_float(&summary.price_change_percent), 3.12);
    assert_eq!(as_float(&summary.volume), 8_913.3);
    assert_eq!(summary.observed_at, Timestamp(1_710_000_000_000));
}

#[test]
fn market_summary_checks_fields_in_order() {
    let adapter = BinanceMarketDataAdapter;
    let fields = MarketSummaryFields {
        last_price: accepted("1"),
        volume: DecimalText::Rejected("volume must be finite and non-negative".to_owned()),
        close_time_ms: None,
        price_change_percent: DecimalText::Missing,
    };
    assert_eq!(
        adapter.parse_market_summary_response(&fields),
        Err("volume must be finite and non-negative".to_owned())
    );
    let fields = MarketSummaryFields {
        last_price: accepted("1"),
        volume: accepted("2"),
        close_time_ms: Some(-1),
        price_change_percent: DecimalText::Missing,
    };
    assert_eq!(
        adapter.parse_market_summary_response(&fields),
        Err("timestamp must be non-negative".to_owned())
    );
    let fields = MarketSummaryFields {
        last_price: accepted("1"),
        volume: accepted("2"),
        close_time_ms: Some(5),
        price_change_percent: DecimalText::Missing,
    };
    assert_eq!(
        adapter.parse_market_summary_response(&fields),
        Err("missing string field: priceChangePercent".to_owned())
    );
}

#[test]
fn parses_kline_record_into_candle() {
    let adapter = BinanceMarketDataAdapter;
    let record = JsonValue::Array(vec![
        number(1_710_000_000_000),
        text("68000.00"),
        text("68500.00"),
        text("67950.00"),
        text("68450.12"),
        text("123.45"),
        number(1_710_000_059_999),
        text("0"),
        number(42),
        text("0"),
        text("0"),
        text("0"),
    ]);
    let candle = adapter
        .parse_kline_record(Timeframe::OneMinute, &record_fields(raw_record_of(&record)))
        .expect("kline record should parse");

    assert_eq!(candle.timeframe, Timeframe::OneMinute);
    assert_eq!(candle.open_time, Timestamp(1_710_000_000_000));
    assert_eq!(candle.close_time, Timestamp(1_710_000_059_999));
    assert_eq!(as_float(&candle.open), 68_000.0);
    assert_eq!(as_float(&candle.close), 68_450.12);
    assert_eq!(candle.trade_count, 42);
    assert!(candle.is_final);
}

#[test]
fn kline_record_errors_name_their_index() {
    let adapter = BinanceMarketDataAdapter;
    let read = |record: JsonValue| {
        adapter.parse_kline_record(Timeframe::OneMinute, &record_fields(raw_record_of(&record)))
    };
    assert_eq!(
        read(JsonValue::Array(vec![number(1_710_000_000_000), text("68000.00"), text("x")])),
        Err("invalid float at index 2: invalid float literal".to_owned())
    );
    let mut entries = vec![number(1_710_000_000_000)];
    entries.extend((0..5).map(|_| text("1")));
    entries.push(number(1_710_000_059_999));
    entries.push(text("0"));
    assert_eq!(read(JsonValue::Array(entries)), Err("missing integer field at index 8".to_owned()));
    assert_eq!(
        read(JsonValue::Object(vec![("open".to_owned(), number(1))])),
        Err("missing integer field at index 0".to_owned())
    );
    assert_eq!(
        read(JsonValue::Array(vec![number(1_710_000_000_000), number(1)])),
        Err("missing string field at index 1".to_owned())
    );
    assert_eq!(
        read(JsonValue::Array(vec![JsonValue::Number(None, "1.5".to_owned())])),
        Err("missing integer field at index 0".to_owned())
    );
}

#[test]
fn parses_klines_response_into_candles() {
    let adapter = BinanceMarketDataAdapter;
    let fields = klines_fields(
        r#"[
            [1710000000000,"68000.00","68500.00","67950.00","68450.12","123.45",1710000059999,"0",42,"0","0","0"],
            [1710000060000,"68450.12","68600.00","68400.00","68500.00","95.00",1710000119999,"0",31,"0","0","0"]
        ]"#,
    );
    let candles = adapter
        .parse_klines_response(Timeframe::OneMinute, &fields)
        .expect("kline response should parse");

    assert_eq!(candles.len(), 2);
    assert_eq!(as_float(&candles[0].open), 68_000.0);
    assert_eq!(as_float(&candles[1].close), 68_500.0);
}

#[test]
fn klines_response_refused_by_its_first_bad_record() {
    let adapter = BinanceMarketDataAdapter;
    assert_eq!(
        adapter.parse_klines_response(Timeframe::OneMinute, &KlinesResponseFields { records: None }),
        Err("expected kline response array".to_owned())
    );
    let fields = klines_fields(
        r#"[
            [1710000000000,"1","1","1","1","1",1710000059999,"0",1],
            [-5,"1","1","1","1","1",1710000119999,"0",1],
            [1710000120000,"1","1","1","1","-1",1710000179999,"0",1]
        ]"#,
    );
    assert_eq!(
        adapter.parse_klines_response(Timeframe::OneMinute, &fields),
        Err("timestamp must be non-negative".to_owned())
    );
    assert_eq!(
        adapter.parse_klines_response(Timeframe::OneMinute, &KlinesResponseFields { records: Some(Vec::new()) }),
        Ok(Vec::new())
    );
}

#[test]
fn parses_combined_kline_stream_payload() {
    let adapter = BinanceMarketDataAdapter;
    let message = combined_message(
        r#"{
            "stream":"btcusdt@kline_1m",
            "data":{
                "e":"kline",
                "E":1710000120000,
                "s":"BTCUSDT",
                "k":{
                    "t":1710000060000,
                    "T":1710000119999,
                    "s":"BTCUSDT",
                    "i":"1m",
                    "o":"68450.12",
                    "c":"68500.00",
                    "h":"68600.00",
                    "l":"68400.00",
                    "v":"95.00",
                    "n":31,
                    "x":false
                }
            }
        }"#,
    );
    let event = adapter
        .parse_combined_stream_payload(&message)
        .expect("combined kline payload should parse");

    match event {
        StreamEvent::Kline(candle) => {
            assert_eq!(candle.timeframe, Timeframe::OneMinute);
            assert_eq!(as_float(&candle.close), 68_500.0);
            assert!(!candle.is_final);
        }
        _ => panic!("expected kline event"),
    }
}

#[test]
fn parses_combined_mini_ticker_stream_payload() {
    let adapter = BinanceMarketDataAdapter;
    let message = combined_message(
        r#"{
            "stream":"btcusdt@miniTicker",
            "data":{
                "e":"24hrMiniTicker",
                "E":1710000120000,
                "s":"BTCUSDT",
                "c":"68500.00",
                "o":"68000.00",
                "h":"68600.00",
                "l":"67900.00",
                "v":"8913.3",
                "q":"0"
            }
        }"#,
    );
    let event = adapter
        .parse_combined_stream_payload(&message)
        .expect("combined mini ticker payload should parse");

    match event {
        StreamEvent::MiniTicker(update) => {
            let open = as_float(&update.open);
            let last = as_float(&update.close);
            assert_eq!(last, 68_500.0);
            assert!(((last - open) / open) * 100.0 > 0.7);
            assert_eq!(update.observed_at.0, 1_710_000_120_000);
        }
        _ => panic!("expected mini ticker event"),
    }
}

#[test]
fn combined_stream_errors_by_field() {
    let adapter = BinanceMarketDataAdapter;
    let refused = |payload: &str| adapter.parse_combined_stream_payload(&combined_message(payload));
    assert_eq!(refused(r#"{"data":{}}"#), Err("missing stream field".to_owned()));
    assert_eq!(refused(r#"{"stream":7,"data":{}}"#), Err("missing stream field".to_owned()));
    assert_eq!(refused(r#"{"stream":"btcusdt@kline_1m"}"#), Err("missing data field".to_owned()));
    assert_eq!(refused(r#"{"stream":"btcusdt@kline_1m","data":{}}"#), Err("missing kline payload".to_owned()));
    assert_eq!(
        refused(r#"{"stream":"btcusdt@kline_1m","data":{"k":{}}}"#),
        Err("missing kline interval".to_owned())
    );
    assert_eq!(
        refused(r#"{"stream":"btcusdt@kline_1m","data":{"k":{"i":"2h"}}}"#),
        Err("unsupported timeframe".to_owned())
    );
    assert_eq!(
        refused(r#"{"stream":"btcusdt@kline_1m","data":{"k":{"i":"1m","t":1}}}"#),
        Err("missing integer field: T".to_owned())
    );
    assert_eq!(
        refused(r#"{"stream":"btcusdt@kline_1m","data":{"k":{"i":"1m","t":1,"T":2,"o":"1","h":"-2"}}}"#),
        Err("price must be finite and non-negative".to_owned())
    );
    assert_eq!(
        refused(r#"{"stream":"btcusdt@bookTicker","data":{}}"#),
        Err("unsupported combined stream payload: btcusdt@bookTicker".to_owned())
    );
    assert_eq!(
        refused(r#"{"stream":"btcusdt@miniTicker","data":{"o":"1","c":"abc"}}"#),
        Err("invalid float for c: invalid float literal".to_owned())
    );
    assert_eq!(
        refused(r#"{"stream":"btcusdt@miniTicker","data":{"o":"1","c":"2","v":"3"}}"#),
        Err("missing integer field: E".to_owned())
    );
}

#[test]
fn kline_fields_are_checked_in_order() {
    let adapter = BinanceMarketDataAdapter;
    let mut fields = full_kline_fields();
    fields.is_final = None;
    assert_eq!(
        adapter.parse_combined_stream_payload(&kline_message(Some(fields))),
        Err("missing boolean field: x".to_owned())
    );
    let mut fields = full_kline_fields();
    fields.trade_count = None;
    fields.is_final = None;
    assert_eq!(
        adapter.parse_combined_stream_payload(&kline_message(Some(fields))),
        Err("missing integer field: n".to_owned())
    );
    let mut fields = full_kline_fields();
    fields.trade_count = Some(-1);
    match adapter.parse_combined_stream_payload(&kline_message(Some(fields))) {
        Ok(StreamEvent::Kline(update)) => {
            assert_eq!(update.trade_count, u64::MAX);
            assert_eq!(update.open_time, Timestamp(1_710_000_060_000));
            assert_eq!(update.volume, "10");
            assert!(update.is_final);
        }
        other => panic!("expected a kline update, got {other:?}"),
    }
}

#[test]
fn window_bounds_hold_the_open_time() {
    let engine = TimeframeDerivationEngine;
    assert_eq!(engine.window_bounds(1_710_000_060_000, Timeframe::FiveMinutes), (1_710_000_000_000, 1_710_000_299_999));
    assert_eq!(engine.window_bounds(0, Timeframe::OneHour), (0, 3_599_999));
    assert_eq!(engine.window_bounds(3_600_000, Timeframe::OneHour), (3_600_000, 7_199_999));
    assert_eq!(engine.window_bounds(-1, Timeframe::OneMinute), (-60_000, -1));
    assert_eq!(engine.window_bounds(-60_000, Timeframe::OneMinute), (-60_000, -1));
}

#[test]
fn readers_pass_on_the_json_error() {
    let adapter = BinanceMarketDataAdapter;
    let error = adapter.read_combined_stream_fields("not json").expect_err("not JSON");
    assert!(error.starts_with("expected"));
    assert_eq!(adapter.read_latest_price_fields("{").map(|_| ()), Err(error_of("{")));
    assert!(KrakenMarketDataAdapter.read_ticker_fields("[1,").is_err());
}

fn error_of(payload: &str) -> String {
    serde_json::from_str::<serde_json::Value>(payload).expect_err("not JSON").to_string()
}

#[test]
fn readers_take_fields_by_key_and_type() {
    let adapter = BinanceMarketDataAdapter;
    let raw = adapter
        .read_combined_stream_fields(r#"{"stream":7,"data":{"k":{"i":"1m","t":1.5,"n":18446744073709551615,"x":true},"o":"1","E":-3}}"#)
        .expect("JSON");
    assert_eq!(raw.stream, None);
    let data = raw.data.expect("data present");
    assert_eq!(data.mini_ticker.open, Some("1".to_owned()));
    assert_eq!(data.mini_ticker.close, None);
    assert_eq!(data.mini_ticker.event_time_ms, Some(-3));
    let kline = data.kline.expect("k present");
    assert_eq!(kline.interval, Some("1m".to_owned()));
    assert_eq!(kline.open_time_ms, None);
    assert_eq!(kline.trade_count, None);
    assert_eq!(kline.is_final, Some(true));
    let raw = adapter.read_combined_stream_fields(r#"{"stream":"s","data":null}"#).expect("JSON");
    assert_eq!(raw.data.map(|d| d.kline.is_none()), Some(true));
    let raw = adapter.read_combined_stream_fields(r#"[1]"#).expect("JSON");
    assert_eq!(raw.stream, None);
    assert!(raw.data.is_none());
    let raw = adapter.read_market_summary_fields(r#"{"closeTime":"5","volume":"2"}"#).expect("JSON");
    assert_eq!(raw.close_time_ms, None);
    assert_eq!(raw.volume, Some("2".to_owned()));
    assert!(adapter.read_klines_response_fields(r#"{"a":1}"#).expect("JSON").records.is_none());
}

#[test]
fn kraken_reader_renders_errors_and_reads_tickers_in_key_order() {
    let raw = KrakenMarketDataAdapter
        .read_ticker_fields(r#"{"error":["EQuery:Unknown asset pair"],"result":{"B":{"c":["2"]},"A":{"c":[1]}}}"#)
        .expect("JSON");
    assert_eq!(
        raw.errors,
        Some(KrakenErrorList { count: 1, rendered: "[String(\"EQuery:Unknown asset pair\")]".to_owned() })
    );
    assert_eq!(raw.last_trades, Some(vec![None, Some("2".to_owned())]));
    let raw = KrakenMarketDataAdapter.read_ticker_fields(r#"{"error":{},"result":[]}"#).expect("JSON");
    assert_eq!(raw.errors, None);
    assert_eq!(raw.last_trades, None);
    let document = JsonValue::Object(vec![("error".to_owned(), JsonValue::Array(Vec::new()))]);
    let raw = raw_kraken_ticker_of(&document, None);
    assert_eq!(raw.errors.map(|e| e.count), Some(0));
}

#[test]
fn combined_fields_are_taken_from_a_given_document() {
    let document = JsonValue::Object(vec![
        ("data".to_owned(), JsonValue::Object(vec![("c".to_owned(), text("9"))])),
        ("stream".to_owned(), text("btcusdt@miniTicker")),
    ]);
    let raw = raw_combined_stream_of(&document);
    assert_eq!(raw.stream, Some("btcusdt@miniTicker".to_owned()));
    let data = raw.data.expect("data present");
    assert_eq!(data.mini_ticker.close, Some("9".to_owned()));
    assert!(data.kline.is_none());
}
