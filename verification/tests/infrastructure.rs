use market_intelligence::adapters::{
    BinanceMarketDataAdapter, BinanceStreamKind, CoinGeckoMarketDataAdapter, KrakenMarketDataAdapter,
};
use market_intelligence::clients::{
    RestMarketDataClient, RestRequest, RestResponse, StreamSubscription, WebSocketFrame,
    WebSocketMarketDataClient, WebSocketReadSession, WebSocketReadStep,
};
use market_intelligence::health::{source_status_from_str, SourceHealthMonitor, SourceStatus};
use market_intelligence::market_data::{Instrument, Timeframe, Timestamp};
use market_intelligence::normalization::{MarketEventNormalizer, SymbolMapper, TimestampNormalizer};

#[test]
fn maps_primary_binance_symbol() {
    let mapper = SymbolMapper;
    let instrument = mapper.normalize_binance_spot("BTCUSDT");
    assert!(instrument.is_some());
}

#[test]
fn lowercases_binance_stream_names() {
    let adapter = BinanceMarketDataAdapter;
    assert_eq!(adapter.kline_stream_name("BTCUSDT", "1m"), "btcusdt@kline_1m");
}

#[test]
fn builds_required_binance_rest_requests() {
    let adapter = BinanceMarketDataAdapter;
    let rest_client = adapter.rest_client();
    let request = adapter.build_klines_request("BTCUSDT", Timeframe::OneMinute, 1000, None, None);
    let latest_price_request = adapter.build_latest_price_request("BTCUSDT");
    let market_summary_request = adapter.build_market_summary_request("BTCUSDT");

    assert_eq!(request.path, "/api/v3/klines");
    assert_eq!(request.query_value("symbol"), Some("BTCUSDT"));
    assert_eq!(request.query_value("interval"), Some("1m"));
    assert_eq!(request.query_value("limit"), Some("1000"));
    assert_eq!(
        rest_client.build_url(&request),
        "https://api.binance.com/api/v3/klines?symbol=BTCUSDT&interval=1m&limit=1000"
    );
    assert_eq!(latest_price_request.path, "/api/v3/ticker/price");
    assert_eq!(market_summary_request.path, "/api/v3/ticker/24hr");
}

#[test]
fn builds_required_binance_stream_subscriptions() {
    let adapter = BinanceMarketDataAdapter;
    let subscriptions = adapter.build_primary_stream_subscriptions("BTCUSDT");
    let websocket_client = adapter.websocket_client();

    assert_eq!(subscriptions.len(), 2);
    assert_eq!(subscriptions[0].stream_name, "btcusdt@kline_1m");
    assert_eq!(subscriptions[1].stream_name, "btcusdt@miniTicker");
    assert_eq!(
        websocket_client
            .build_combined_stream_url(&subscriptions)
            .expect("combined stream url should build"),
        "wss://stream.binance.com:9443/stream?streams=btcusdt@kline_1m/btcusdt@miniTicker"
    );
}

#[test]
fn builds_subscribe_message_for_streams() {
    let websocket_client = WebSocketMarketDataClient::new("wss://stream.binance.com:9443");
    let message = websocket_client
        .build_subscribe_message(
            &[
                StreamSubscription {
                    stream_name: "btcusdt@kline_1m".to_owned(),
                },
                StreamSubscription {
                    stream_name: "btcusdt@miniTicker".to_owned(),
                },
            ],
            7,
        )
        .expect("subscribe message should build");

    assert_eq!(
        message,
        r#"{"id":7,"method":"SUBSCRIBE","params":["btcusdt@kline_1m","btcusdt@miniTicker"]}"#
    );
}

#[test]
fn subscribe_message_escapes_stream_names() {
    let websocket_client = WebSocketMarketDataClient::new("wss://example.test");
    let message = websocket_client
        .build_subscribe_message(
            &[StreamSubscription {
                stream_name: "a\"b\\c".to_owned(),
            }],
            18_446_744_073_709_551_615,
        )
        .expect("subscribe message should build");
    assert_eq!(
        message,
        r#"{"id":18446744073709551615,"method":"SUBSCRIBE","params":["a\"b\\c"]}"#
    );
}

#[test]
fn refuses_empty_subscription_lists() {
    let websocket_client = WebSocketMarketDataClient::new("wss://stream.binance.com:9443");
    let expected = "at least one websocket stream subscription is required".to_owned();
    assert_eq!(websocket_client.build_combined_stream_url(&[]), Err(expected.clone()));
    assert_eq!(websocket_client.build_subscribe_message(&[], 1), Err(expected));
}

#[test]
fn builds_kraken_reference_price_request() {
    let adapter = KrakenMarketDataAdapter;
    let request = adapter.build_reference_price_request("XBTUSD");

    assert_eq!(request.path, "/0/public/Ticker");
    assert_eq!(request.query_value("pair"), Some("XBTUSD"));
    assert_eq!(
        adapter.rest_client().build_url(&request),
        "https://api.kraken.com/0/public/Ticker?pair=XBTUSD"
    );
}

#[test]
fn marks_stale_source_as_degraded() {
    let monitor = SourceHealthMonitor;
    let status = monitor.classify(10_000, 5_000, 2_000);
    assert_eq!(status, SourceStatus::Degraded);
}

#[test]
fn classifies_sources_by_age() {
    let monitor = SourceHealthMonitor;
    assert_eq!(monitor.classify(7_000, 5_000, 2_000), SourceStatus::Healthy);
    assert_eq!(monitor.classify(11_000, 5_000, 2_000), SourceStatus::Degraded);
    assert_eq!(monitor.classify(11_001, 5_000, 2_000), SourceStatus::Unavailable);
    assert_eq!(monitor.classify(4_000, 5_000, 0), SourceStatus::Healthy);
    assert_eq!(monitor.classify(i64::MAX, i64::MIN, i64::MAX), SourceStatus::Healthy);
    assert_eq!(monitor.classify(i64::MAX, i64::MIN, i64::MAX / 2), SourceStatus::Degraded);
    assert_eq!(monitor.classify(i64::MIN, i64::MAX, -1), SourceStatus::Healthy);
}

#[test]
fn classification_never_improves_with_time() {
    let monitor = SourceHealthMonitor;
    let rank = |status: SourceStatus| match status {
        SourceStatus::Healthy => 0,
        SourceStatus::Degraded => 1,
        SourceStatus::Unavailable => 2,
    };
    let mut previous = 0;
    for now in (0..20_000).step_by(250) {
        let current = rank(monitor.classify(now, 1_000, 3_000));
        assert!(previous <= current);
        previous = current;
    }
}

#[test]
fn failed_sync_degrades_or_marks_unavailable() {
    let monitor = SourceHealthMonitor;
    assert_eq!(monitor.status_after_failed_sync(10_000, Some(9_000), 2_000), SourceStatus::Degraded);
    assert_eq!(monitor.status_after_failed_sync(10_000, Some(5_000), 2_000), SourceStatus::Degraded);
    assert_eq!(monitor.status_after_failed_sync(10_000, Some(1_000), 2_000), SourceStatus::Unavailable);
    assert_eq!(monitor.status_after_failed_sync(10_000, None, 2_000), SourceStatus::Unavailable);
}

#[test]
fn source_status_labels_round_trip() {
    for status in [SourceStatus::Healthy, SourceStatus::Degraded, SourceStatus::Unavailable] {
        assert_eq!(source_status_from_str(status.as_str()), status);
    }
    assert_eq!(SourceStatus::Degraded.as_str(), "degraded");
    assert_eq!(source_status_from_str("mystery"), SourceStatus::Unavailable);
}

#[test]
fn query_value_finds_the_first_matching_key() {
    let request = RestRequest {
        path: "/x",
        query: vec![
            ("a".to_owned(), "1".to_owned()),
            ("b".to_owned(), "2".to_owned()),
            ("a".to_owned(), "3".to_owned()),
        ],
    };
    assert_eq!(request.query_value("a"), Some("1"));
    assert_eq!(request.query_value("b"), Some("2"));
    assert_eq!(request.query_value("c"), None);
}

#[test]
fn klines_request_carries_optional_bounds() {
    let adapter = BinanceMarketDataAdapter;
    let request = adapter.build_klines_request("BTCUSDT", Timeframe::OneHour, 7, Some(-5), Some(1_710_000_000_000));
    assert_eq!(request.query_value("interval"), Some("1h"));
    assert_eq!(request.query_value("limit"), Some("7"));
    assert_eq!(request.query_value("startTime"), Some("-5"));
    assert_eq!(request.query_value("endTime"), Some("1710000000000"));
    let open = adapter.build_klines_request("BTCUSDT", Timeframe::OneDay, 0, None, Some(0));
    assert_eq!(open.query_value("startTime"), None);
    assert_eq!(open.query_value("endTime"), Some("0"));
    assert_eq!(open.query_value("limit"), Some("0"));
}

#[test]
fn build_url_trims_trailing_slashes_and_handles_empty_queries() {
    let client = RestMarketDataClient::new("https://host.test///");
    let bare = RestRequest { path: "/p", query: Vec::new() };
    assert_eq!(client.build_url(&bare), "https://host.test/p");
    let request = RestRequest {
        path: "/p",
        query: vec![("k".to_owned(), "v".to_owned()), ("x".to_owned(), "".to_owned())],
    };
    assert_eq!(client.build_url(&request), "https://host.test/p?k=v&x=");
}

#[test]
fn accepts_only_successful_http_answers() {
    assert_eq!(
        RestMarketDataClient::check_response(200, "ok".to_owned()),
        Ok(RestResponse { status_code: 200, body: "ok".to_owned() })
    );
    assert_eq!(
        RestMarketDataClient::check_response(399, "".to_owned()),
        Ok(RestResponse { status_code: 399, body: "".to_owned() })
    );
    assert_eq!(
        RestMarketDataClient::check_response(404, "missing".to_owned()),
        Err("http request failed with status 404: missing".to_owned())
    );
}

#[test]
fn dispatches_combined_stream_payloads_by_name() {
    let adapter = BinanceMarketDataAdapter;
    assert_eq!(adapter.stream_payload_kind("btcusdt@kline_1m"), BinanceStreamKind::Kline);
    assert_eq!(adapter.stream_payload_kind("btcusdt@miniTicker"), BinanceStreamKind::MiniTicker);
    assert_eq!(adapter.stream_payload_kind("btcusdt@trade"), BinanceStreamKind::Unsupported);
    assert_eq!(adapter.stream_payload_kind("x@kline_@miniTicker"), BinanceStreamKind::Kline);
    assert_eq!(
        adapter.unsupported_stream_error("btcusdt@trade"),
        "unsupported combined stream payload: btcusdt@trade"
    );
    for name in adapter.build_primary_stream_subscriptions("ETHbtc") {
        assert_ne!(adapter.stream_payload_kind(&name.stream_name), BinanceStreamKind::Unsupported);
    }
    assert_eq!(adapter.mini_ticker_stream_name("ETHbtc"), "ethbtc@miniTicker");
}

#[test]
fn exposes_exchange_paths() {
    let binance = BinanceMarketDataAdapter;
    assert_eq!(binance.historical_klines_path(), "/api/v3/klines");
    assert_eq!(binance.latest_price_path(), "/api/v3/ticker/price");
    assert_eq!(binance.market_summary_path(), "/api/v3/ticker/24hr");
    assert_eq!(binance.websocket_client().base_url, "wss://stream.binance.com:9443");
    let kraken = KrakenMarketDataAdapter;
    assert_eq!(kraken.ohlc_path(), "/0/public/OHLC");
    assert_eq!(kraken.ticker_channel(), "ticker");
    let coingecko = CoinGeckoMarketDataAdapter;
    assert_eq!(coingecko.simple_price_path(), "/api/v3/simple/price");
    assert_eq!(coingecko.coins_markets_path(), "/api/v3/coins/markets");
}

#[test]
fn normalizes_symbols_timestamps_and_windows() {
    let mapper = SymbolMapper;
    assert_eq!(mapper.normalize_binance_spot("BTCUSDT"), Some(Instrument::btc_usd_spot()));
    assert_eq!(mapper.normalize_binance_spot("ETHUSDT"), None);
    assert_eq!(mapper.normalize_kraken_spot("XBTUSD"), Some(Instrument::btc_usd_spot()));
    assert_eq!(mapper.normalize_kraken_spot("BTC/USD"), Some(Instrument::btc_usd_spot()));
    assert_eq!(mapper.normalize_kraken_spot("BTCUSDT"), None);
    assert_eq!(TimestampNormalizer.from_milliseconds(5), Some(Timestamp(5)));
    assert_eq!(TimestampNormalizer.from_milliseconds(-5), None);
    assert_eq!(
        MarketEventNormalizer.normalize_kline_window(1, 2, Timeframe::OneMinute),
        Some((Timestamp(1), Timestamp(2), Timeframe::OneMinute))
    );
    assert_eq!(MarketEventNormalizer.normalize_kline_window(-1, 2, Timeframe::OneMinute), None);
    assert_eq!(MarketEventNormalizer.normalize_kline_window(1, -2, Timeframe::OneMinute), None);
}

#[test]
fn websocket_read_session_collects_until_enough() {
    let mut session = WebSocketReadSession::new(2);
    assert!(!session.is_complete());
    assert_eq!(session.on_frame(WebSocketFrame::Ping), WebSocketReadStep::SendPong);
    assert_eq!(session.on_frame(WebSocketFrame::Text("a".to_owned())), WebSocketReadStep::Continue);
    assert_eq!(session.on_frame(WebSocketFrame::Other), WebSocketReadStep::Continue);
    assert!(!session.is_complete());
    assert_eq!(session.on_frame(WebSocketFrame::Text("b".to_owned())), WebSocketReadStep::Continue);
    assert!(session.is_complete());
    assert_eq!(session.into_messages(), vec!["a".to_owned(), "b".to_owned()]);

    let mut closing = WebSocketReadSession::new(3);
    assert_eq!(closing.on_frame(WebSocketFrame::Close), WebSocketReadStep::Finish);
    assert!(WebSocketReadSession::new(0).is_complete());
}

#[test]
fn subscribe_message_escapes_control_characters() {
    let websocket_client = WebSocketMarketDataClient::new("wss://example.test");
    let message = websocket_client
        .build_subscribe_message(
            &[
                StreamSubscription { stream_name: "a\nb\tc\u{1}d\u{7f}é/".to_owned() },
                StreamSubscription { stream_name: "\u{8}\u{c}\r".to_owned() },
            ],
            0,
        )
        .expect("subscribe message should build");
    assert_eq!(
        message,
        "{\"id\":0,\"method\":\"SUBSCRIBE\",\"params\":[\"a\\nb\\tc\\u0001d\u{7f}é/\",\"\\b\\f\\r\"]}"
    );
}
