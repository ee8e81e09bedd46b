//! Stored records, their text encodings, the identifiers of stored
//! snapshots, and the query services over the repositories.

use crate::analytics::{regime_phrase, ExpectedDirection, MarketRegimeLabel};
use crate::market_data::{lemma_timeframe_label_round_trip, timeframe_label, Timeframe, Timestamp};
use crate::text::{
    lemma_signed_decimal_injective, lemma_split_at_separator, push_char, push_signed_decimal,
    signed_decimal, str_eq,
};
use vstd::prelude::*;

verus! {

/// A raised alert as stored.
#[derive(Debug, Clone, PartialEq, Eq)]
pub struct AlertRecord {
    pub instrument_id: String,
    pub timeframe: Timeframe,
    pub alert_type: String,
    pub severity: String,
    pub message: String,
    pub triggered_at_ms: i64,
    pub scenario_snapshot_id: Option<String>,
    pub is_acknowledged: bool,
}

/// One observation of a source's health as stored.
#[derive(Debug, Clone, PartialEq, Eq)]
pub struct SourceHealthRecord {
    pub source_id: String,
    pub status: String,
    pub message: String,
    pub observed_at_ms: i64,
    pub created_at_ms: i64,
}

/// The latest health observation of a source and the time of its last
/// healthy observation, if any.
#[derive(Debug, Clone, PartialEq, Eq)]
pub struct SourceHealthSnapshot {
    pub latest_event: SourceHealthRecord,
    pub last_successful_update_ms: Option<i64>,
}

/// What the service reads of a regime snapshot when it compares regimes.
#[derive(Debug, Clone, PartialEq, Eq)]
pub struct RegimeObservation {
    pub instrument_id: String,
    pub timeframe: Timeframe,
    pub observed_at: Timestamp,
    pub regime_label: MarketRegimeLabel,
}

/// What the service reads of a scenario snapshot when it names or compares
/// scenarios.
#[derive(Debug, Clone, PartialEq, Eq)]
pub struct ScenarioObservation {
    pub instrument_id: String,
    pub timeframe: Timeframe,
    pub observed_at: Timestamp,
    pub expected_direction: ExpectedDirection,
}

/// The stored identifier of an analytics (feature, regime or scenario)
/// snapshot: `<instrument>:<timeframe>:<observed at>:v1`.
pub open spec fn snapshot_key(instrument_id: Seq<char>, timeframe: Timeframe, observed_at_ms: int) -> Seq<
    char,
> {
    instrument_id + seq![':'] + timeframe_label(timeframe) + seq![':'] + signed_decimal(
        observed_at_ms,
    ) + ":v1"@
}

/// The stored identifier of a candle:
/// `<instrument>:<source>:<timeframe>:<open time>`.
pub open spec fn candle_key(
    instrument_id: Seq<char>,
    source_id: Seq<char>,
    timeframe: Timeframe,
    open_time_ms: int,
) -> Seq<char> {
    instrument_id + seq![':'] + source_id + seq![':'] + timeframe_label(timeframe) + seq![':']
        + signed_decimal(open_time_ms)
}

/// The stored identifier of a live price snapshot:
/// `<instrument>:<source>:<observed at>`.
pub open spec fn live_price_snapshot_key(
    instrument_id: Seq<char>,
    source_id: Seq<char>,
    observed_at_ms: int,
) -> Seq<char> {
    instrument_id + seq![':'] + source_id + seq![':'] + signed_decimal(observed_at_ms)
}

/// The stored identifier of an alert:
/// `<instrument>:<timeframe>:<alert type>:<triggered at>`.
pub open spec fn alert_key(
    instrument_id: Seq<char>,
    timeframe: Timeframe,
    alert_type: Seq<char>,
    triggered_at_ms: int,
) -> Seq<char> {
    instrument_id + seq![':'] + timeframe_label(timeframe) + seq![':'] + alert_type + seq![':']
        + signed_decimal(triggered_at_ms)
}

/// The stored identifier of a source health event:
/// `<source>:<status>:<observed at>`.
pub open spec fn source_health_event_key(
    source_id: Seq<char>,
    status: Seq<char>,
    observed_at_ms: int,
) -> Seq<char> {
    source_id + seq![':'] + status + seq![':'] + signed_decimal(observed_at_ms)
}

/// Appends `:` and the decimal rendering of `value`.
fn push_colon_decimal(id: &mut String, value: i64)
    ensures
        final(id)@ == old(id)@ + seq![':'] + signed_decimal(value as int),
{
    let ghost start = id@;
    push_char(id, ':');
    push_signed_decimal(id, value);
    assert(id@ =~= start + seq![':'] + signed_decimal(value as int));
}

/// Appends `:` and a text.
fn push_colon_text(id: &mut String, text: &str)
    ensures
        final(id)@ == old(id)@ + seq![':'] + text@,
{
    let ghost start = id@;
    push_char(id, ':');
    id.append(text);
    assert(id@ =~= start + seq![':'] + text@);
}

/// The stored identifier of an analytics snapshot.
pub fn analytics_snapshot_id(instrument_id: &str, timeframe: Timeframe, observed_at_ms: i64) -> (id:
    String)
    ensures
        id@ == snapshot_key(instrument_id@, timeframe, observed_at_ms as int),
{
    let mut id = instrument_id.to_owned();
    push_colon_text(&mut id, timeframe.as_str());
    push_colon_decimal(&mut id, observed_at_ms);
    id.append(":v1");
    id
}

/// The stored identifier of a scenario snapshot.
pub fn scenario_snapshot_id(snapshot: &ScenarioObservation) -> (id: String)
    ensures
        id@ == snapshot_key(
            snapshot.instrument_id@,
            snapshot.timeframe,
            snapshot.observed_at.0 as int,
        ),
{
    analytics_snapshot_id(snapshot.instrument_id.as_str(), snapshot.timeframe, snapshot.observed_at.0)
}

/// The stored identifier of a candle.
pub fn candle_id(instrument_id: &str, source_id: &str, timeframe: Timeframe, open_time_ms: i64) -> (id:
    String)
    ensures
        id@ == candle_key(instrument_id@, source_id@, timeframe, open_time_ms as int),
{
    let mut id = instrument_id.to_owned();
    push_colon_text(&mut id, source_id);
    push_colon_text(&mut id, timeframe.as_str());
    push_colon_decimal(&mut id, open_time_ms);
    id
}

/// The stored identifier of a live price snapshot.
pub fn live_price_snapshot_id(instrument_id: &str, source_id: &str, observed_at_ms: i64) -> (id:
    String)
    ensures
        id@ == live_price_snapshot_key(instrument_id@, source_id@, observed_at_ms as int),
{
    let mut id = instrument_id.to_owned();
    push_colon_text(&mut id, source_id);
    push_colon_decimal(&mut id, observed_at_ms);
    id
}

/// The stored identifier of an alert.
pub fn alert_id(alert: &AlertRecord) -> (id: String)
    ensures
        id@ == alert_key(
            alert.instrument_id@,
            alert.timeframe,
            alert.alert_type@,
            alert.triggered_at_ms as int,
        ),
{
    let mut id = alert.instrument_id.clone();
    push_colon_text(&mut id, alert.timeframe.as_str());
    push_colon_text(&mut id, alert.alert_type.as_str());
    push_colon_decimal(&mut id, alert.triggered_at_ms);
    id
}

/// The stored identifier of a source health event.
pub fn source_health_event_id(event: &SourceHealthRecord) -> (id: String)
    ensures
        id@ == source_health_event_key(
            event.source_id@,
            event.status@,
            event.observed_at_ms as int,
        ),
{
    let mut id = event.source_id.clone();
    push_colon_text(&mut id, event.status.as_str());
    push_colon_decimal(&mut id, event.observed_at_ms);
    id
}

/// No timeframe label holds `:`.
pub proof fn lemma_timeframe_label_has_no_colon(timeframe: Timeframe)
    ensures
        !timeframe_label(timeframe).contains(':'),
{
    reveal_strlit("1m");
    reveal_strlit("5m");
    reveal_strlit("15m");
    reveal_strlit("1h");
    reveal_strlit("4h");
    reveal_strlit("1d");
    reveal_strlit("1w");
    let label = timeframe_label(timeframe);
    assert forall|i: int| 0 <= i < label.len() implies label[i] != ':' by {
        assert(label[i] == '1' || label[i] == '5' || label[i] == '4' || label[i] == 'm'
            || label[i] == 'h' || label[i] == 'd' || label[i] == 'w');
    }
}

/// Two identifiers of analytics snapshots are equal only for the same
/// instrument, timeframe and observation time (for instrument identifiers
/// without `:`), so storing by identifier keeps one snapshot per instrument,
/// timeframe and time.
pub proof fn lemma_snapshot_key_unique(
    instrument1: Seq<char>,
    timeframe1: Timeframe,
    observed1: int,
    instrument2: Seq<char>,
    timeframe2: Timeframe,
    observed2: int,
)
    requires
        !instrument1.contains(':'),
        !instrument2.contains(':'),
        snapshot_key(instrument1, timeframe1, observed1) == snapshot_key(
            instrument2,
            timeframe2,
            observed2,
        ),
    ensures
        instrument1 == instrument2,
        timeframe1 == timeframe2,
        observed1 == observed2,
{
    let v1 = ":v1"@;
    let d1 = signed_decimal(observed1);
    let d2 = signed_decimal(observed2);
    let l1 = timeframe_label(timeframe1);
    let l2 = timeframe_label(timeframe2);
    assert(snapshot_key(instrument1, timeframe1, observed1) =~= instrument1 + seq![':'] + (l1
        + seq![':'] + (d1 + v1)));
    assert(snapshot_key(instrument2, timeframe2, observed2) =~= instrument2 + seq![':'] + (l2
        + seq![':'] + (d2 + v1)));
    lemma_split_at_separator(instrument1, l1 + seq![':'] + (d1 + v1), instrument2, l2 + seq![':'] + (
    d2 + v1), ':');
    lemma_timeframe_label_has_no_colon(timeframe1);
    lemma_timeframe_label_has_no_colon(timeframe2);
    lemma_split_at_separator(l1, d1 + v1, l2, d2 + v1, ':');
    assert(d1 =~= (d1 + v1).take(d1.len() as int));
    assert(d2 =~= (d2 + v1).take(d2.len() as int));
    lemma_signed_decimal_injective(observed1, observed2);
    lemma_timeframe_label_round_trip(timeframe1);
    lemma_timeframe_label_round_trip(timeframe2);
}

/// Two candle identifiers are equal only for the same instrument, source,
/// timeframe and open time (for instrument and source identifiers without
/// `:`), so storing by identifier keeps one candle per instrument, source,
/// timeframe and open time.
pub proof fn lemma_candle_key_unique(
    instrument1: Seq<char>,
    source1: Seq<char>,
    timeframe1: Timeframe,
    open1: int,
    instrument2: Seq<char>,
    source2: Seq<char>,
    timeframe2: Timeframe,
    open2: int,
)
    requires
        !instrument1.contains(':'),
        !instrument2.contains(':'),
        !source1.contains(':'),
        !source2.contains(':'),
        candle_key(instrument1, source1, timeframe1, open1) == candle_key(
            instrument2,
            source2,
            timeframe2,
            open2,
        ),
    ensures
        instrument1 == instrument2,
        source1 == source2,
        timeframe1 == timeframe2,
        open1 == open2,
{
    let d1 = signed_decimal(open1);
    let d2 = signed_decimal(open2);
    let l1 = timeframe_label(timeframe1);
    let l2 = timeframe_label(timeframe2);
    let tail1 = source1 + seq![':'] + (l1 + seq![':'] + d1);
    let tail2 = source2 + seq![':'] + (l2 + seq![':'] + d2);
    assert(candle_key(instrument1, source1, timeframe1, open1) =~= instrument1 + seq![':']
        + tail1);
    assert(candle_key(instrument2, source2, timeframe2, open2) =~= instrument2 + seq![':']
        + tail2);
    lemma_split_at_separator(instrument1, tail1, instrument2, tail2, ':');
    lemma_split_at_separator(source1, l1 + seq![':'] + d1, source2, l2 + seq![':'] + d2, ':');
    lemma_timeframe_label_has_no_colon(timeframe1);
    lemma_timeframe_label_has_no_colon(timeframe2);
    lemma_split_at_separator(l1, d1, l2, d2, ':');
    lemma_signed_decimal_injective(open1, open2);
    lemma_timeframe_label_round_trip(timeframe1);
    lemma_timeframe_label_round_trip(timeframe2);
}

/// The stored text of a regime label.
pub open spec fn regime_label_text(label: MarketRegimeLabel) -> Seq<char> {
    match label {
        MarketRegimeLabel::Uptrend => "uptrend"@,
        MarketRegimeLabel::Downtrend => "downtrend"@,
        MarketRegimeLabel::Range => "range"@,
        MarketRegimeLabel::HighVolatilityTransition => "high_volatility_transition"@,
    }
}

/// The words an explanation uses for a regime name the regime: they are its
/// stored label with each underscore read as a hyphen or a space, so
/// different regimes get different words.
pub proof fn lemma_regime_phrase_names_regime(a: MarketRegimeLabel, b: MarketRegimeLabel)
    ensures
        regime_phrase(a).len() == regime_label_text(a).len(),
        forall|i: int|
            0 <= i < regime_label_text(a).len() ==> if #[trigger] regime_label_text(a)[i] == '_' {
                regime_phrase(a)[i] == '-' || regime_phrase(a)[i] == ' '
            } else {
                regime_phrase(a)[i] == regime_label_text(a)[i]
            },
        a != b ==> regime_phrase(a) != regime_phrase(b),
{
    reveal_strlit("uptrend");
    reveal_strlit("downtrend");
    reveal_strlit("range");
    reveal_strlit("high_volatility_transition");
    reveal_strlit("high-volatility transition");
    if a != b {
        assert(regime_phrase(a).len() != regime_phrase(b).len());
    }
}

/// The regime label stored as `text`, if any.
pub open spec fn regime_label_from_text(text: Seq<char>) -> Option<MarketRegimeLabel> {
    if text == "uptrend"@ {
        Some(MarketRegimeLabel::Uptrend)
    } else if text == "downtrend"@ {
        Some(MarketRegimeLabel::Downtrend)
    } else if text == "range"@ {
        Some(MarketRegimeLabel::Range)
    } else if text == "high_volatility_transition"@ {
        Some(MarketRegimeLabel::HighVolatilityTransition)
    } else {
        None
    }
}

/// The stored text of a direction.
pub open spec fn direction_text(direction: ExpectedDirection) -> Seq<char> {
    match direction {
        ExpectedDirection::Bullish => "bullish"@,
        ExpectedDirection::Neutral => "neutral"@,
        ExpectedDirection::Bearish => "bearish"@,
    }
}

/// The direction stored as `text`, if any.
pub open spec fn direction_from_text(text: Seq<char>) -> Option<ExpectedDirection> {
    if text == "bullish"@ {
        Some(ExpectedDirection::Bullish)
    } else if text == "neutral"@ {
        Some(ExpectedDirection::Neutral)
    } else if text == "bearish"@ {
        Some(ExpectedDirection::Bearish)
    } else {
        None
    }
}

/// The stored text of a regime label.
pub fn regime_label_as_str(value: MarketRegimeLabel) -> (text: &'static str)
    ensures
        text@ == regime_label_text(value),
{
    match value {
        MarketRegimeLabel::Uptrend => "uptrend",
        MarketRegimeLabel::Downtrend => "downtrend",
        MarketRegimeLabel::Range => "range",
        MarketRegimeLabel::HighVolatilityTransition => "high_volatility_transition",
    }
}

/// The regime label stored as `value`; any other text is refused.
pub fn parse_regime_label(value: &str) -> (label: Option<MarketRegimeLabel>)
    ensures
        label == regime_label_from_text(value@),
{
    if str_eq(value, "uptrend") {
        Some(MarketRegimeLabel::Uptrend)
    } else if str_eq(value, "downtrend") {
        Some(MarketRegimeLabel::Downtrend)
    } else if str_eq(value, "range") {
        Some(MarketRegimeLabel::Range)
    } else if str_eq(value, "high_volatility_transition") {
        Some(MarketRegimeLabel::HighVolatilityTransition)
    } else {
        None
    }
}

/// The stored text of a direction.
pub fn expected_direction_as_str(value: ExpectedDirection) -> (text: &'static str)
    ensures
        text@ == direction_text(value),
{
    match value {
        ExpectedDirection::Bullish => "bullish",
        ExpectedDirection::Neutral => "neutral",
        ExpectedDirection::Bearish => "bearish",
    }
}

/// The direction stored as `value`; any other text is refused.
pub fn parse_expected_direction(value: &str) -> (direction: Option<ExpectedDirection>)
    ensures
        direction == direction_from_text(value@),
{
    if str_eq(value, "bullish") {
        Some(ExpectedDirection::Bullish)
    } else if str_eq(value, "neutral") {
        Some(ExpectedDirection::Neutral)
    } else if str_eq(value, "bearish") {
        Some(ExpectedDirection::Bearish)
    } else {
        None
    }
}

/// Reading back a stored regime label gives the label that was written.
pub proof fn lemma_regime_label_text_round_trip(label: MarketRegimeLabel)
    ensures
        regime_label_from_text(regime_label_text(label)) == Some(label),
{
    reveal_strlit("uptrend");
    reveal_strlit("downtrend");
    reveal_strlit("range");
    reveal_strlit("high_volatility_transition");
    assert("downtrend"@[0] != "uptrend"@[0]);
    assert("range"@[0] != "uptrend"@[0]);
    assert("range"@[0] != "downtrend"@[0]);
    assert("high_volatility_transition"@[0] != "uptrend"@[0]);
    assert("high_volatility_transition"@[0] != "downtrend"@[0]);
    assert("high_volatility_transition"@[0] != "range"@[0]);
}

/// Reading back a stored direction gives the direction that was written.
pub proof fn lemma_direction_text_round_trip(direction: ExpectedDirection)
    ensures
        direction_from_text(direction_text(direction)) == Some(direction),
{
    reveal_strlit("bullish");
    reveal_strlit("neutral");
    reveal_strlit("bearish");
    assert("neutral"@[0] != "bullish"@[0]);
    assert("bearish"@[1] != "bullish"@[1]);
    assert("bearish"@[0] != "neutral"@[0]);
}

/// Stores alerts.
pub trait AlertRepository {
    type Error;

    fn save(&self, alert: &AlertRecord) -> Result<(), Self::Error>;
}

/// Stores source health observations.
pub trait SourceHealthRepository {
    type Error;

    fn save(&self, event: &SourceHealthRecord) -> Result<(), Self::Error>;
}

/// Reads the latest alerts of an instrument and timeframe.
pub trait AlertHistoryQueryRepository {
    type Error;

    /// Whether `res` is an answer that the repository gives when asked for
    /// up to `limit` alerts of `instrument_id` on `timeframe`. An
    /// implementation that does not define it admits every answer.
    closed spec fn answers_alert_history(
        &self,
        instrument_id: Seq<char>,
        timeframe: Timeframe,
        limit: usize,
        res: Result<Vec<AlertRecord>, Self::Error>,
    ) -> bool {
        true
    }

    fn load_alert_history(
        &self,
        instrument_id: &str,
        timeframe: Timeframe,
        limit: usize,
    ) -> (res: Result<Vec<AlertRecord>, Self::Error>)
        ensures
            self.answers_alert_history(instrument_id@, timeframe, limit, res),
    ;
}

/// Reads the latest health of every source.
pub trait SourceHealthQueryRepository {
    type Error;

    /// Whether `res` is an answer that the repository gives when asked for
    /// the health of every source. An implementation that does not define it
    /// admits every answer.
    closed spec fn answers_source_health(&self, res: Result<Vec<SourceHealthSnapshot>, Self::Error>) -> bool {
        true
    }

    fn load_source_health(&self) -> (res: Result<Vec<SourceHealthSnapshot>, Self::Error>)
        ensures
            self.answers_source_health(res),
    ;
}

/// A request for the latest market overview of an instrument.
#[derive(Debug, Clone, PartialEq, Eq)]
pub struct LatestMarketOverviewQuery {
    pub instrument_id: String,
    pub timeframe: Timeframe,
}

impl LatestMarketOverviewQuery {
    /// The query for `instrument_id` on `timeframe`.
    pub fn for_instrument(instrument_id: String, timeframe: Timeframe) -> (query: Self)
        ensures
            query.instrument_id == instrument_id,
            query.timeframe == timeframe,
    {
        LatestMarketOverviewQuery { instrument_id, timeframe }
    }
}

/// Answers market overview queries.
#[derive(Debug, Default, Clone, Copy)]
pub struct MarketOverviewQueryService;

/// A request for the latest candles of an instrument.
#[derive(Debug, Clone, PartialEq, Eq)]
pub struct CandleHistoryQuery {
    pub instrument_id: String,
    pub timeframe: Timeframe,
    pub limit: usize,
}

impl CandleHistoryQuery {
    /// The query for up to `limit` candles of `instrument_id` on `timeframe`.
    pub fn for_instrument(instrument_id: String, timeframe: Timeframe, limit: usize) -> (query:
        Self)
        ensures
            query.instrument_id == instrument_id,
            query.timeframe == timeframe,
            query.limit == limit,
    {
        CandleHistoryQuery { instrument_id, timeframe, limit }
    }
}

/// Answers candle history queries.
#[derive(Debug, Default, Clone, Copy)]
pub struct CandleHistoryQueryService;

/// A request for the latest scenarios of an instrument.
#[derive(Debug, Clone, PartialEq, Eq)]
pub struct ScenarioHistoryQuery {
    pub instrument_id: String,
    pub timeframe: Timeframe,
    pub limit: usize,
}

impl ScenarioHistoryQuery {
    /// The query for up to `limit` scenarios of `instrument_id` on
    /// `timeframe`.
    pub fn for_instrument(instrument_id: String, timeframe: Timeframe, limit: usize) -> (query:
        Self)
        ensures
            query.instrument_id == instrument_id,
            query.timeframe == timeframe,
            query.limit == limit,
    {
        ScenarioHistoryQuery { instrument_id, timeframe, limit }
    }
}

/// Answers scenario history queries.
#[derive(Debug, Default, Clone, Copy)]
pub struct ScenarioHistoryQueryService;

/// A request for the latest alerts of an instrument.
#[derive(Debug, Clone, PartialEq, Eq)]
pub struct AlertHistoryQuery {
    pub instrument_id: String,
    pub timeframe: Timeframe,
    pub limit: usize,
}

impl AlertHistoryQuery {
    /// The query for up to `limit` alerts of `instrument_id` on `timeframe`.
    pub fn for_instrument(instrument_id: String, timeframe: Timeframe, limit: usize) -> (query:
        Self)
        ensures
            query.instrument_id == instrument_id,
            query.timeframe == timeframe,
            query.limit == limit,
    {
        AlertHistoryQuery { instrument_id, timeframe, limit }
    }
}

/// Answers alert history queries.
#[derive(Debug, Default, Clone, Copy)]
pub struct AlertHistoryQueryService;

impl AlertHistoryQueryService {
    /// The repository's answer for the instrument, timeframe and limit of the
    /// query.
    pub fn load<R: AlertHistoryQueryRepository>(self, repository: &R, query: &AlertHistoryQuery) -> (res:
        Result<Vec<AlertRecord>, R::Error>)
        ensures
            repository.answers_alert_history(query.instrument_id@, query.timeframe, query.limit, res),
    {
        repository.load_alert_history(query.instrument_id.as_str(), query.timeframe, query.limit)
    }
}

/// A request for the health of every source.
#[derive(Debug, Default, Clone, Copy)]
pub struct SourceHealthQuery;

/// Answers source health queries.
#[derive(Debug, Default, Clone, Copy)]
pub struct SourceHealthQueryService;

impl SourceHealthQueryService {
    /// The repository's answer for the health of every source.
    pub fn load<R: SourceHealthQueryRepository>(self, repository: &R, query: &SourceHealthQuery) -> (res:
        Result<Vec<SourceHealthSnapshot>, R::Error>)
        ensures
            repository.answers_source_health(res),
    {
        repository.load_source_health()
    }
}

/// Writes analytics snapshots through the repositories.
#[derive(Debug, Default, Clone, Copy)]
pub struct SnapshotWriteService;

} // verus!
