//! Exchange adapters: hosts, paths, request builders, stream names and the
//! dispatch of combined-stream payloads by stream name.

use crate::clients::{
    query_lookup, query_view, RestMarketDataClient, RestRequest, StreamSubscription,
    WebSocketMarketDataClient,
};
use crate::market_data::{timeframe_label, Timeframe};
use crate::text::{
    ascii_lower, contains_text, decimal, ends_with_text, i64_to_decimal, occurs_at,
    signed_decimal, str_contains, str_ends_with, to_ascii_lowercase, u64_to_decimal,
};
use vstd::prelude::*;

verus! {

/// The Binance spot market-data API.
#[derive(Debug, Default, Clone, Copy)]
pub struct BinanceMarketDataAdapter;

/// The kind of payload a combined-stream message carries, told by its stream
/// name.
#[derive(Debug, Clone, Copy, PartialEq, Eq, Structural)]
pub enum BinanceStreamKind {
    Kline,
    MiniTicker,
    Unsupported,
}

/// A query with one pair.
pub open spec fn single_pair_query(key: Seq<char>, value: Seq<char>) -> Seq<
    (Seq<char>, Seq<char>),
> {
    seq![(key, value)]
}

/// The query of a klines request: symbol, interval and limit, then the start
/// and end times when given.
pub open spec fn klines_query(
    symbol: Seq<char>,
    timeframe: Timeframe,
    limit: u16,
    start_time_ms: Option<i64>,
    end_time_ms: Option<i64>,
) -> Seq<(Seq<char>, Seq<char>)> {
    let base = seq![
        ("symbol"@, symbol),
        ("interval"@, timeframe_label(timeframe)),
        ("limit"@, decimal(limit as nat)),
    ];
    let with_start = match start_time_ms {
        Some(t) => base.push(("startTime"@, signed_decimal(t as int))),
        None => base,
    };
    match end_time_ms {
        Some(t) => with_start.push(("endTime"@, signed_decimal(t as int))),
        None => with_start,
    }
}

/// The mini-ticker stream name of a symbol.
pub open spec fn mini_ticker_stream(symbol: Seq<char>) -> Seq<char> {
    ascii_lower(symbol) + "@miniTicker"@
}

/// The kline stream name of a symbol and interval label.
pub open spec fn kline_stream(symbol: Seq<char>, timeframe: Seq<char>) -> Seq<char> {
    ascii_lower(symbol) + "@kline_"@ + timeframe
}

/// The kind of a combined-stream payload by its stream name: a kline stream
/// when the name holds `@kline_`, else a mini-ticker stream when it ends with
/// `@miniTicker`.
pub open spec fn stream_kind(stream_name: Seq<char>) -> BinanceStreamKind {
    if contains_text(stream_name, "@kline_"@) {
        BinanceStreamKind::Kline
    } else if ends_with_text(stream_name, "@miniTicker"@) {
        BinanceStreamKind::MiniTicker
    } else {
        BinanceStreamKind::Unsupported
    }
}

/// The request built from a path and a single query pair.
fn single_pair_request(path: &'static str, key: &str, value: &str) -> (request: RestRequest)
    ensures
        request.path == path,
        query_view(request.query@) == single_pair_query(key@, value@),
{
    let mut query: Vec<(String, String)> = Vec::new();
    query.push((key.to_owned(), value.to_owned()));
    assert(query_view(query@) =~= single_pair_query(key@, value@));
    RestRequest { path, query }
}

impl BinanceMarketDataAdapter {
    /// The REST client for the Binance API host.
    pub fn rest_client(self) -> (client: RestMarketDataClient)
        ensures
            client.base_url@ == "https://api.binance.com"@,
    {
        RestMarketDataClient::new("https://api.binance.com")
    }

    /// The websocket client for the Binance stream host.
    pub fn websocket_client(self) -> (client: WebSocketMarketDataClient)
        ensures
            client.base_url@ == "wss://stream.binance.com:9443"@,
    {
        WebSocketMarketDataClient::new("wss://stream.binance.com:9443")
    }

    /// The path of historical klines.
    pub fn historical_klines_path(self) -> (path: &'static str)
        ensures
            path@ == "/api/v3/klines"@,
    {
        "/api/v3/klines"
    }

    /// The path of the latest price.
    pub fn latest_price_path(self) -> (path: &'static str)
        ensures
            path@ == "/api/v3/ticker/price"@,
    {
        "/api/v3/ticker/price"
    }

    /// The path of the 24-hour market summary.
    pub fn market_summary_path(self) -> (path: &'static str)
        ensures
            path@ == "/api/v3/ticker/24hr"@,
    {
        "/api/v3/ticker/24hr"
    }

    /// The request for up to `limit` klines of `symbol`, optionally bounded
    /// by start and end times in milliseconds.
    pub fn build_klines_request(
        self,
        symbol: &str,
        timeframe: Timeframe,
        limit: u16,
        start_time_ms: Option<i64>,
        end_time_ms: Option<i64>,
    ) -> (request: RestRequest)
        ensures
            request.path@ == "/api/v3/klines"@,
            query_view(request.query@) == klines_query(
                symbol@,
                timeframe,
                limit,
                start_time_ms,
                end_time_ms,
            ),
    {
        let mut query: Vec<(String, String)> = Vec::new();
        query.push(("symbol".to_owned(), symbol.to_owned()));
        query.push(("interval".to_owned(), timeframe.as_str().to_owned()));
        query.push(("limit".to_owned(), u64_to_decimal(limit as u64)));
        let ghost base = query_view(query@);
        assert(base =~= seq![
            ("symbol"@, symbol@),
            ("interval"@, timeframe_label(timeframe)),
            ("limit"@, decimal(limit as nat)),
        ]);
        if let Some(start_time_ms) = start_time_ms {
            query.push(("startTime".to_owned(), i64_to_decimal(start_time_ms)));
        }
        let ghost with_start = query_view(query@);
        assert(with_start =~= match start_time_ms {
            Some(t) => base.push(("startTime"@, signed_decimal(t as int))),
            None => base,
        });
        if let Some(end_time_ms) = end_time_ms {
            query.push(("endTime".to_owned(), i64_to_decimal(end_time_ms)));
        }
        assert(query_view(query@) =~= match end_time_ms {
            Some(t) => with_start.push(("endTime"@, signed_decimal(t as int))),
            None => with_start,
        });
        RestRequest { path: self.historical_klines_path(), query }
    }

    /// The request for the latest price of `symbol`.
    pub fn build_latest_price_request(self, symbol: &str) -> (request: RestRequest)
        ensures
            request.path@ == "/api/v3/ticker/price"@,
            query_view(request.query@) == single_pair_query("symbol"@, symbol@),
    {
        single_pair_request(self.latest_price_path(), "symbol", symbol)
    }

    /// The request for the 24-hour market summary of `symbol`.
    pub fn build_market_summary_request(self, symbol: &str) -> (request: RestRequest)
        ensures
            request.path@ == "/api/v3/ticker/24hr"@,
            query_view(request.query@) == single_pair_query("symbol"@, symbol@),
    {
        single_pair_request(self.market_summary_path(), "symbol", symbol)
    }

    /// The mini-ticker stream name of `symbol`: the symbol in lower case and
    /// `@miniTicker`.
    pub fn mini_ticker_stream_name(self, symbol: &str) -> (name: String)
        ensures
            name@ == mini_ticker_stream(symbol@),
    {
        let mut name = to_ascii_lowercase(symbol);
        name.append("@miniTicker");
        name
    }

    /// The kline stream name of `symbol` and an interval label: the symbol in
    /// lower case, `@kline_` and the label.
    pub fn kline_stream_name(self, symbol: &str, timeframe: &str) -> (name: String)
        ensures
            name@ == kline_stream(symbol@, timeframe@),
    {
        let mut name = to_ascii_lowercase(symbol);
        name.append("@kline_");
        name.append(timeframe);
        name
    }

    /// The streams the service follows for `symbol`: its one-minute klines,
    /// then its mini ticker.
    pub fn build_primary_stream_subscriptions(self, symbol: &str) -> (subscriptions: Vec<
        StreamSubscription,
    >)
        ensures
            subscriptions@.len() == 2,
            subscriptions@[0].stream_name@ == kline_stream(symbol@, "1m"@),
            subscriptions@[1].stream_name@ == mini_ticker_stream(symbol@),
    {
        let mut subscriptions: Vec<StreamSubscription> = Vec::new();
        subscriptions.push(
            StreamSubscription {
                stream_name: self.kline_stream_name(symbol, Timeframe::OneMinute.as_str()),
            },
        );
        subscriptions.push(StreamSubscription { stream_name: self.mini_ticker_stream_name(symbol) });
        subscriptions
    }

    /// The kind of a combined-stream payload by its stream name.
    pub fn stream_payload_kind(self, stream_name: &str) -> (kind: BinanceStreamKind)
        ensures
            kind == stream_kind(stream_name@),
    {
        if str_contains(stream_name, "@kline_") {
            BinanceStreamKind::Kline
        } else if str_ends_with(stream_name, "@miniTicker") {
            BinanceStreamKind::MiniTicker
        } else {
            BinanceStreamKind::Unsupported
        }
    }

    /// The error for a combined-stream payload of an unsupported stream.
    pub fn unsupported_stream_error(self, stream_name: &str) -> (message: String)
        ensures
            message@ == "unsupported combined stream payload: "@ + stream_name@,
    {
        let mut message = "unsupported combined stream payload: ".to_owned();
        message.append(stream_name);
        message
    }
}

/// A klines request gives back, by key, the symbol, the interval label and
/// the limit it was built with, and the start and end times exactly when
/// they were given.
pub proof fn lemma_klines_query_read_back(
    symbol: Seq<char>,
    timeframe: Timeframe,
    limit: u16,
    start_time_ms: Option<i64>,
    end_time_ms: Option<i64>,
)
    ensures
        ({
            let q = klines_query(symbol, timeframe, limit, start_time_ms, end_time_ms);
            &&& query_lookup(q, "symbol"@) == Some(symbol)
            &&& query_lookup(q, "interval"@) == Some(timeframe_label(timeframe))
            &&& query_lookup(q, "limit"@) == Some(decimal(limit as nat))
            &&& query_lookup(q, "startTime"@) == match start_time_ms {
                Some(t) => Some(signed_decimal(t as int)),
                None => None::<Seq<char>>,
            }
            &&& query_lookup(q, "endTime"@) == match end_time_ms {
                Some(t) => Some(signed_decimal(t as int)),
                None => None::<Seq<char>>,
            }
        }),
{
    reveal_strlit("symbol");
    reveal_strlit("interval");
    reveal_strlit("limit");
    reveal_strlit("startTime");
    reveal_strlit("endTime");
    reveal_with_fuel(query_lookup, 6);
    let q = klines_query(symbol, timeframe, limit, start_time_ms, end_time_ms);
    let keys = seq!["symbol"@, "interval"@, "limit"@, "startTime"@, "endTime"@];
    assert forall|i: int, j: int| 0 <= i < j < 5 implies keys[i] != keys[j] by {
        assert(keys[i][0] != keys[j][0] || keys[i].len() != keys[j].len());
    }
    assert(q.drop_first()[0] == q[1]);
    assert(q.drop_first().drop_first()[0] == q[2]);
    assert(q.drop_first().drop_first().drop_first() =~= q.subrange(3, q.len() as int));
    let tail = q.subrange(3, q.len() as int);
    match start_time_ms {
        Some(s) => {
            assert(tail[0] == ("startTime"@, signed_decimal(s as int)));
            match end_time_ms {
                Some(e) => {
                    assert(tail.drop_first()[0] == ("endTime"@, signed_decimal(e as int)));
                    assert(tail.drop_first().drop_first().len() == 0);
                },
                None => {
                    assert(tail.drop_first().len() == 0);
                },
            }
        },
        None => {
            match end_time_ms {
                Some(e) => {
                    assert(tail[0] == ("endTime"@, signed_decimal(e as int)));
                    assert(tail.drop_first().len() == 0);
                },
                None => {
                    assert(tail.len() == 0);
                },
            }
        },
    }
}

/// A single-pair request gives back its value by its key, and nothing by
/// any other key.
pub proof fn lemma_single_pair_read_back(key: Seq<char>, value: Seq<char>, other: Seq<char>)
    ensures
        query_lookup(single_pair_query(key, value), key) == Some(value),
        other != key ==> query_lookup(single_pair_query(key, value), other) is None,
{
    reveal_with_fuel(query_lookup, 2);
    assert(single_pair_query(key, value).drop_first().len() == 0);
}

/// A kline stream name is always dispatched as a kline payload.
pub proof fn lemma_kline_stream_dispatch(symbol: Seq<char>, timeframe: Seq<char>)
    ensures
        stream_kind(kline_stream(symbol, timeframe)) == BinanceStreamKind::Kline,
{
    let name = kline_stream(symbol, timeframe);
    let at = ascii_lower(symbol).len() as int;
    assert(name.subrange(at, at + "@kline_"@.len()) =~= "@kline_"@);
    assert(occurs_at(name, "@kline_"@, at));
}

/// A mini-ticker stream name of a symbol without `@` is always dispatched as
/// a mini-ticker payload.
pub proof fn lemma_mini_ticker_stream_dispatch(symbol: Seq<char>)
    requires
        !symbol.contains('@'),
    ensures
        stream_kind(mini_ticker_stream(symbol)) == BinanceStreamKind::MiniTicker,
{
    reveal_strlit("@kline_");
    reveal_strlit("@miniTicker");
    let lower = ascii_lower(symbol);
    let name = mini_ticker_stream(symbol);
    let at = lower.len() as int;
    assert forall|i: int| 0 <= i < at implies name[i] != '@' by {
        assert(name[i] == lower[i]);
        assert(lower[i] == crate::text::ascii_lower_char(symbol[i]));
        assert(symbol[i] != '@');
    }
    assert forall|i: int| #![auto] !occurs_at(name, "@kline_"@, i) by {
        if occurs_at(name, "@kline_"@, i) {
            assert(name.subrange(i, i + 7)[0] == '@');
            assert(name[i] == '@');
            assert(name.subrange(i, i + 7)[1] == 'k');
            assert(name[i + 1] == 'k');
            if i < at {
            } else {
                assert(name[i] == "@miniTicker"@[i - at]);
                assert(name[i + 1] == "@miniTicker"@[i + 1 - at]);
            }
        }
    }
    assert(name.subrange(name.len() - 11, name.len() as int) =~= "@miniTicker"@);
}

/// The Kraken market-data API.
#[derive(Debug, Default, Clone, Copy)]
pub struct KrakenMarketDataAdapter;

impl KrakenMarketDataAdapter {
    /// The REST client for the Kraken API host.
    pub fn rest_client(self) -> (client: RestMarketDataClient)
        ensures
            client.base_url@ == "https://api.kraken.com"@,
    {
        RestMarketDataClient::new("https://api.kraken.com")
    }

    /// The path of the ticker.
    pub fn ticker_path(self) -> (path: &'static str)
        ensures
            path@ == "/0/public/Ticker"@,
    {
        "/0/public/Ticker"
    }

    /// The path of OHLC candles.
    pub fn ohlc_path(self) -> (path: &'static str)
        ensures
            path@ == "/0/public/OHLC"@,
    {
        "/0/public/OHLC"
    }

    /// The websocket channel of the ticker.
    pub fn ticker_channel(self) -> (channel: &'static str)
        ensures
            channel@ == "ticker"@,
    {
        "ticker"
    }

    /// The ticker request for `pair`, used as the reference price.
    pub fn build_reference_price_request(self, pair: &str) -> (request: RestRequest)
        ensures
            request.path@ == "/0/public/Ticker"@,
            query_view(request.query@) == single_pair_query("pair"@, pair@),
    {
        single_pair_request(self.ticker_path(), "pair", pair)
    }
}

/// The CoinGecko market-data API.
#[derive(Debug, Default, Clone, Copy)]
pub struct CoinGeckoMarketDataAdapter;

impl CoinGeckoMarketDataAdapter {
    /// The path of simple prices.
    pub fn simple_price_path(self) -> (path: &'static str)
        ensures
            path@ == "/api/v3/simple/price"@,
    {
        "/api/v3/simple/price"
    }

    /// The path of coin markets.
    pub fn coins_markets_path(self) -> (path: &'static str)
        ensures
            path@ == "/api/v3/coins/markets"@,
    {
        "/api/v3/coins/markets"
    }
}

} // verus!
