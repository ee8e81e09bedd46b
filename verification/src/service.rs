//! The decisions of the service around its stores and feeds: configuration,
//! API answers, alert derivation, health bookkeeping of the Binance sync and
//! the clock.

use crate::analytics::{ExpectedDirection, MarketRegimeLabel};
use crate::health::{
    classify_status, saturate_i64, saturating_sub_i64, source_status_from_label,
    lemma_source_status_label_round_trip, source_status_from_str, source_status_label, status_rank, SourceHealthMonitor, SourceStatus,
};
use crate::market_data::{timeframe_from_label, timeframe_label, Timeframe};
use crate::persistence::{
    direction_text, expected_direction_as_str, regime_label_as_str, regime_label_text,
    scenario_snapshot_id, snapshot_key, AlertRecord, RegimeObservation,
    ScenarioObservation, SourceHealthRecord, SourceHealthSnapshot,
};
use crate::text::{decimal, push_decimal, str_eq};
use vstd::prelude::*;

verus! {

/// The configuration of the service.
#[derive(Debug, PartialEq, Eq)]
pub struct AppConfig {
    pub instrument_symbol: String,
    pub primary_exchange_symbol: String,
    pub market_data_db_path: String,
    pub api_bind_address: String,
    pub live_sync_message_limit: usize,
    pub api_sync_interval_secs: u64,
    pub source_health_stale_after_secs: u64,
}

impl Clone for AppConfig {
    fn clone(&self) -> (res: Self)
        ensures
            res == *self,
    {
        AppConfig {
            instrument_symbol: self.instrument_symbol.clone(),
            primary_exchange_symbol: self.primary_exchange_symbol.clone(),
            market_data_db_path: self.market_data_db_path.clone(),
            api_bind_address: self.api_bind_address.clone(),
            live_sync_message_limit: self.live_sync_message_limit,
            api_sync_interval_secs: self.api_sync_interval_secs,
            source_health_stale_after_secs: self.source_health_stale_after_secs,
        }
    }
}

impl Default for AppConfig {
    fn default() -> (config: Self)
        ensures
            config.instrument_symbol@ == "BTC-USD-SPOT"@,
            config.primary_exchange_symbol@ == "BTCUSDT"@,
            config.market_data_db_path@ == "var/market-data.sqlite3"@,
            config.api_bind_address@ == "127.0.0.1:3000"@,
            config.live_sync_message_limit == 2,
            config.api_sync_interval_secs == 30,
            config.source_health_stale_after_secs == 90,
    {
        AppConfig {
            instrument_symbol: "BTC-USD-SPOT".to_owned(),
            primary_exchange_symbol: "BTCUSDT".to_owned(),
            market_data_db_path: "var/market-data.sqlite3".to_owned(),
            api_bind_address: "127.0.0.1:3000".to_owned(),
            live_sync_message_limit: 2,
            api_sync_interval_secs: 30,
            source_health_stale_after_secs: 90,
        }
    }
}

/// The staleness bound in milliseconds of a bound in seconds, capped so
/// that it fits in an `i64`.
pub open spec fn stale_after_ms_of(secs: u64) -> int {
    let capped = if secs < 9_223_372_036_854_775 {
        secs as int
    } else {
        9_223_372_036_854_775
    };
    capped * 1000
}

impl AppConfig {
    /// The staleness bound of source health in milliseconds.
    pub fn source_health_stale_after_ms(&self) -> (ms: i64)
        ensures
            ms == stale_after_ms_of(self.source_health_stale_after_secs),
            0 <= ms,
    {
        let cap: u64 = 9_223_372_036_854_775;
        let secs = if self.source_health_stale_after_secs < cap {
            self.source_health_stale_after_secs
        } else {
            cap
        };
        (secs * 1000) as i64
    }
}

/// What the API handlers need of the configuration.
#[derive(Debug, Clone, PartialEq, Eq)]
pub struct ApiState {
    pub market_data_db_path: String,
    pub instrument_id: String,
    pub source_health_stale_after_ms: i64,
}

impl ApiState {
    /// The API state of a configuration.
    pub fn from_config(config: &AppConfig) -> (state: Self)
        ensures
            state.market_data_db_path == config.market_data_db_path,
            state.instrument_id == config.instrument_symbol,
            state.source_health_stale_after_ms == stale_after_ms_of(
                config.source_health_stale_after_secs,
            ),
    {
        ApiState {
            market_data_db_path: config.market_data_db_path.clone(),
            instrument_id: config.instrument_symbol.clone(),
            source_health_stale_after_ms: config.source_health_stale_after_ms(),
        }
    }
}

/// The query parameters of the list endpoints.
#[derive(Debug, Clone, PartialEq, Eq)]
pub struct ApiListQuery {
    pub timeframe: Option<String>,
    pub limit: Option<usize>,
}

/// The number of rows a list endpoint answers: the requested limit or the
/// default, kept within 1..=1000.
pub open spec fn list_limit(value: Option<usize>, default_limit: usize) -> int {
    let wanted = match value {
        Some(v) => v as int,
        None => default_limit as int,
    };
    if wanted < 1 {
        1
    } else if wanted > 1000 {
        1000
    } else {
        wanted
    }
}

/// The number of rows a list endpoint answers.
pub fn normalize_limit(value: Option<usize>, default_limit: usize) -> (limit: usize)
    ensures
        limit == list_limit(value, default_limit),
        1 <= limit <= 1000,
{
    let wanted = match value {
        Some(v) => v,
        None => default_limit,
    };
    if wanted < 1 {
        1
    } else if wanted > 1000 {
        1000
    } else {
        wanted
    }
}

/// The timeframe a list endpoint answers for: one minute when none is asked,
/// none when the asked label is unknown (a bad request).
pub fn parse_timeframe(value: Option<&str>) -> (res: Option<Timeframe>)
    ensures
        match value {
            Some(text) => res == timeframe_from_label(text@),
            None => res == Some(Timeframe::OneMinute),
        },
{
    match value {
        Some(text) => match Timeframe::from_label(text) {
            Ok(timeframe) => Some(timeframe),
            Err(_) => None,
        },
        None => Some(Timeframe::OneMinute),
    }
}

/// An alert as the API serves it.
#[derive(Debug, Clone, PartialEq, Eq)]
pub struct AlertResponse {
    pub instrument_id: String,
    pub timeframe: String,
    pub alert_type: String,
    pub severity: String,
    pub message: String,
    pub triggered_at_ms: i64,
    pub is_acknowledged: bool,
}

impl AlertResponse {
    /// The served form of a stored alert.
    pub fn from_record(record: AlertRecord) -> (response: Self)
        ensures
            response.instrument_id == record.instrument_id,
            response.timeframe@ == timeframe_label(record.timeframe),
            response.alert_type == record.alert_type,
            response.severity == record.severity,
            response.message == record.message,
            response.triggered_at_ms == record.triggered_at_ms,
            response.is_acknowledged == record.is_acknowledged,
    {
        AlertResponse {
            instrument_id: record.instrument_id,
            timeframe: record.timeframe.to_string(),
            alert_type: record.alert_type,
            severity: record.severity,
            message: record.message,
            triggered_at_ms: record.triggered_at_ms,
            is_acknowledged: record.is_acknowledged,
        }
    }
}

/// The health of a source as the API serves it.
#[derive(Debug, Clone, PartialEq, Eq)]
pub struct SourceHealthResponse {
    pub source_id: String,
    pub status: String,
    pub message: String,
    pub observed_at_ms: i64,
    pub last_successful_update_ms: Option<i64>,
    pub age_ms: Option<i64>,
}

/// The served status of a source: a stored healthy status is re-judged by
/// the age of the last success (or of the observation when no success is
/// known); any other stored status is served as it was stored.
pub open spec fn served_status(
    snapshot: SourceHealthSnapshot,
    now_ms: int,
    stale_after_ms: int,
) -> SourceStatus {
    if snapshot.latest_event.status@ == "healthy"@ {
        let since = match snapshot.last_successful_update_ms {
            Some(t) => t as int,
            None => snapshot.latest_event.observed_at_ms as int,
        };
        classify_status(now_ms, since, stale_after_ms)
    } else {
        source_status_from_label(snapshot.latest_event.status@)
    }
}

/// A stored status other than healthy is served as the status it names
/// (degraded stays degraded, unavailable stays unavailable); only a stored
/// healthy status is judged again by age. The served status is never
/// healthier than the stored one.
pub proof fn lemma_served_status_never_healthier(
    snapshot: SourceHealthSnapshot,
    now_ms: int,
    stale_after_ms: int,
)
    ensures
        snapshot.latest_event.status@ != "healthy"@ ==> served_status(
            snapshot,
            now_ms,
            stale_after_ms,
        ) == source_status_from_label(snapshot.latest_event.status@),
        snapshot.latest_event.status@ == "degraded"@ ==> served_status(
            snapshot,
            now_ms,
            stale_after_ms,
        ) == SourceStatus::Degraded,
        snapshot.latest_event.status@ == "unavailable"@ ==> served_status(
            snapshot,
            now_ms,
            stale_after_ms,
        ) == SourceStatus::Unavailable,
        status_rank(served_status(snapshot, now_ms, stale_after_ms)) >= status_rank(
            source_status_from_label(snapshot.latest_event.status@),
        ),
{
    reveal_strlit("healthy");
    reveal_strlit("degraded");
    reveal_strlit("unavailable");
    assert("degraded"@ != "healthy"@) by {
        assert("degraded"@[0] != "healthy"@[0]);
    }
    assert("unavailable"@ != "healthy"@) by {
        assert("unavailable"@[0] != "healthy"@[0]);
    }
    assert("unavailable"@ != "degraded"@) by {
        assert("unavailable"@[0] != "degraded"@[0]);
    }
}

impl SourceHealthResponse {
    /// The served health of a stored snapshot at `now_ms`.
    pub fn from_snapshot(snapshot: SourceHealthSnapshot, now_ms: i64, stale_after_ms: i64) -> (response:
        Self)
        ensures
            response.source_id == snapshot.latest_event.source_id,
            response.status@ == source_status_label(
                served_status(snapshot, now_ms as int, stale_after_ms as int),
            ),
            snapshot.latest_event.status@ == "degraded"@ ==> response.status@ == "degraded"@,
            snapshot.latest_event.status@ == "unavailable"@ ==> response.status@
                == "unavailable"@,
            status_rank(source_status_from_label(response.status@)) >= status_rank(
                source_status_from_label(snapshot.latest_event.status@),
            ),
            response.message == snapshot.latest_event.message,
            response.observed_at_ms == snapshot.latest_event.observed_at_ms,
            response.last_successful_update_ms == snapshot.last_successful_update_ms,
            response.age_ms == match snapshot.last_successful_update_ms {
                Some(t) => Some(saturate_i64(now_ms - t) as i64),
                None => None::<i64>,
            },
    {
        let last_successful_update_ms = snapshot.last_successful_update_ms;
        let status = if str_eq(snapshot.latest_event.status.as_str(), "healthy") {
            let since = match last_successful_update_ms {
                Some(t) => t,
                None => snapshot.latest_event.observed_at_ms,
            };
            SourceHealthMonitor.classify(now_ms, since, stale_after_ms)
        } else {
            source_status_from_str(snapshot.latest_event.status.as_str())
        };
        let age_ms = match last_successful_update_ms {
            Some(t) => Some(saturating_sub_i64(now_ms, t)),
            None => None,
        };
        proof {
            lemma_served_status_never_healthier(snapshot, now_ms as int, stale_after_ms as int);
            lemma_source_status_label_round_trip(status);
        }
        SourceHealthResponse {
            source_id: snapshot.latest_event.source_id,
            status: status.as_str().to_owned(),
            message: snapshot.latest_event.message,
            observed_at_ms: snapshot.latest_event.observed_at_ms,
            last_successful_update_ms,
            age_ms,
        }
    }
}

/// Turns analytics snapshot changes into alerts.
#[derive(Debug, Default, Clone, Copy)]
pub struct SnapshotAlertFactory;

/// The severity of a regime change alert by the new regime.
pub open spec fn regime_change_severity_text(label: MarketRegimeLabel) -> Seq<char> {
    match label {
        MarketRegimeLabel::HighVolatilityTransition => "warning"@,
        _ => "info"@,
    }
}

/// A regime change alert warns exactly when the new regime is a
/// high-volatility transition; a change into an uptrend, a downtrend or a
/// range is for information.
pub proof fn lemma_regime_change_severity(label: MarketRegimeLabel)
    ensures
        (regime_change_severity_text(label) == "warning"@) <==> label
            == MarketRegimeLabel::HighVolatilityTransition,
        label != MarketRegimeLabel::HighVolatilityTransition ==> regime_change_severity_text(label)
            == "info"@,
{
    reveal_strlit("warning");
    reveal_strlit("info");
    assert("warning"@ != "info"@) by {
        assert("warning"@.len() != "info"@.len());
    }
}

/// The severity of a regime change alert by the new regime.
pub fn regime_change_severity(label: MarketRegimeLabel) -> (severity: &'static str)
    ensures
        severity@ == regime_change_severity_text(label),
        severity@ == (if label == MarketRegimeLabel::HighVolatilityTransition {
            "warning"@
        } else {
            "info"@
        }),
{
    match label {
        MarketRegimeLabel::HighVolatilityTransition => "warning",
        MarketRegimeLabel::Uptrend | MarketRegimeLabel::Downtrend | MarketRegimeLabel::Range => {
            "info"
        },
    }
}

/// Whether the regime changed between two observations.
pub open spec fn regime_changed(
    previous: Option<RegimeObservation>,
    current: RegimeObservation,
) -> bool {
    previous matches Some(p) && p.regime_label != current.regime_label
}

/// Whether the expected direction shifted between two observations.
pub open spec fn direction_shifted(
    previous: Option<ScenarioObservation>,
    current: ScenarioObservation,
) -> bool {
    previous matches Some(p) && p.expected_direction != current.expected_direction
}

/// The fields every derived alert shares: unacknowledged, pointing at the
/// current scenario snapshot.
pub open spec fn links_scenario(alert: AlertRecord, scenario: ScenarioObservation) -> bool {
    &&& !alert.is_acknowledged
    &&& alert.scenario_snapshot_id matches Some(id) && id@ == snapshot_key(
        scenario.instrument_id@,
        scenario.timeframe,
        scenario.observed_at.0 as int,
    )
}

/// The alert raised when the regime changes from `previous` to `current`.
pub open spec fn is_regime_change_alert(
    alert: AlertRecord,
    previous: RegimeObservation,
    current: RegimeObservation,
    scenario: ScenarioObservation,
) -> bool {
    &&& alert.instrument_id@ == current.instrument_id@
    &&& alert.timeframe == current.timeframe
    &&& alert.alert_type@ == "regime_changed"@
    &&& alert.severity@ == regime_change_severity_text(current.regime_label)
    &&& alert.message@ == "Regime changed from "@ + regime_label_text(previous.regime_label)
        + " to "@ + regime_label_text(current.regime_label)
    &&& alert.triggered_at_ms == current.observed_at.0
    &&& links_scenario(alert, scenario)
}

/// The alert raised when the expected direction shifts from `previous` to
/// `current`.
pub open spec fn is_direction_shift_alert(
    alert: AlertRecord,
    previous: ScenarioObservation,
    current: ScenarioObservation,
) -> bool {
    &&& alert.instrument_id@ == current.instrument_id@
    &&& alert.timeframe == current.timeframe
    &&& alert.alert_type@ == "scenario_shifted"@
    &&& alert.severity@ == "warning"@
    &&& alert.message@ == "Scenario direction shifted from "@ + direction_text(
        previous.expected_direction,
    ) + " to "@ + direction_text(current.expected_direction)
    &&& alert.triggered_at_ms == current.observed_at.0
    &&& links_scenario(alert, current)
}

impl SnapshotAlertFactory {
    /// The alerts for the latest regime and scenario against the previously
    /// stored ones: a regime change alert when the regime label changed, then
    /// a scenario shift alert when the expected direction changed.
    pub fn build(
        self,
        previous_regime: Option<&RegimeObservation>,
        current_regime: &RegimeObservation,
        previous_scenario: Option<&ScenarioObservation>,
        current_scenario: &ScenarioObservation,
    ) -> (alerts: Vec<AlertRecord>)
        ensures
            ({
                let prev_r = match previous_regime {
                    Some(p) => Some(*p),
                    None => None,
                };
                let prev_s = match previous_scenario {
                    Some(p) => Some(*p),
                    None => None,
                };
                let changed = regime_changed(prev_r, *current_regime);
                let shifted = direction_shifted(prev_s, *current_scenario);
                &&& alerts@.len() == (if changed {
                    1int
                } else {
                    0
                }) + (if shifted {
                    1int
                } else {
                    0
                })
                &&& changed ==> is_regime_change_alert(
                    alerts@[0],
                    prev_r->0,
                    *current_regime,
                    *current_scenario,
                )
                &&& shifted ==> is_direction_shift_alert(
                    alerts@[alerts@.len() - 1],
                    prev_s->0,
                    *current_scenario,
                )
            }),
    {
        let mut alerts: Vec<AlertRecord> = Vec::new();
        if let Some(previous) = previous_regime {
            if previous.regime_label != current_regime.regime_label {
                let mut message = "Regime changed from ".to_owned();
                message.append(regime_label_as_str(previous.regime_label));
                message.append(" to ");
                message.append(regime_label_as_str(current_regime.regime_label));
                alerts.push(
                    AlertRecord {
                        instrument_id: current_regime.instrument_id.clone(),
                        timeframe: current_regime.timeframe,
                        alert_type: "regime_changed".to_owned(),
                        severity: regime_change_severity(current_regime.regime_label).to_owned(),
                        message,
                        triggered_at_ms: current_regime.observed_at.0,
                        scenario_snapshot_id: Some(scenario_snapshot_id(current_scenario)),
                        is_acknowledged: false,
                    },
                );
            }
        }
        if let Some(previous) = previous_scenario {
            if previous.expected_direction != current_scenario.expected_direction {
                let mut message = "Scenario direction shifted from ".to_owned();
                message.append(expected_direction_as_str(previous.expected_direction));
                message.append(" to ");
                message.append(expected_direction_as_str(current_scenario.expected_direction));
                alerts.push(
                    AlertRecord {
                        instrument_id: current_scenario.instrument_id.clone(),
                        timeframe: current_scenario.timeframe,
                        alert_type: "scenario_shifted".to_owned(),
                        severity: "warning".to_owned(),
                        message,
                        triggered_at_ms: current_scenario.observed_at.0,
                        scenario_snapshot_id: Some(scenario_snapshot_id(current_scenario)),
                        is_acknowledged: false,
                    },
                );
            }
        }
        alerts
    }
}

/// One cycle of the service: a bootstrap ingestion then a live sync, with
/// its configuration.
#[derive(Debug, Clone, PartialEq, Eq)]
pub struct Runtime {
    pub config: AppConfig,
}

/// Builds the runtime of a configuration.
#[derive(Debug, Default, Clone, Copy)]
pub struct Bootstrap;

impl Bootstrap {
    /// The runtime running with a copy of `config`.
    pub fn build(self, config: &AppConfig) -> (runtime: Runtime)
        ensures
            runtime.config == *config,
    {
        Runtime { config: config.clone() }
    }
}

/// Loads Binance's REST history into the store and derives the analytics.
#[derive(Debug, Default, Clone, Copy)]
pub struct BinanceBootstrapIngestionTask;

/// Computes and stores analytics snapshots from candles.
#[derive(Debug, Default, Clone, Copy)]
pub struct AnalyticsSnapshotPipeline;

/// Reads the latest market overview for the service.
#[derive(Debug, Default, Clone, Copy)]
pub struct MarketOverviewReadTask;

/// Stores what Binance's live streams deliver.
#[derive(Debug, Default, Clone, Copy)]
pub struct BinanceLiveSyncTask;

/// The source identifier of Binance.
pub open spec fn binance_source_id() -> Seq<char> {
    "binance"@
}

/// The message recorded after a live sync that processed `count` messages.
pub open spec fn live_sync_health_message(count: nat) -> Seq<char> {
    if count == 0 {
        "Binance live stream returned no messages during the sync window"@
    } else {
        "Binance live stream sync processed "@ + decimal(count) + " messages"@
    }
}

impl BinanceLiveSyncTask {
    /// The status and message recorded after a live sync that processed
    /// `processed_message_count` messages: degraded when the stream gave
    /// nothing, healthy otherwise.
    pub fn sync_health(self, processed_message_count: usize) -> (res: (SourceStatus, String))
        ensures
            res.0 == (if processed_message_count == 0 {
                SourceStatus::Degraded
            } else {
                SourceStatus::Healthy
            }),
            res.1@ == live_sync_health_message(processed_message_count as nat),
    {
        if processed_message_count == 0 {
            (
                SourceStatus::Degraded,
                "Binance live stream returned no messages during the sync window".to_owned(),
            )
        } else {
            let mut message = "Binance live stream sync processed ".to_owned();
            push_decimal(&mut message, processed_message_count as u64);
            message.append(" messages");
            (SourceStatus::Healthy, message)
        }
    }
}

/// The running counts of one live sync over the stream payloads it reads.
#[derive(Debug, Clone, Copy, PartialEq, Eq, Structural)]
pub struct LiveSyncProgress {
    pub processed_message_count: usize,
    pub persisted_candle_update_count: usize,
    pub persisted_snapshot_update_count: usize,
}

impl LiveSyncProgress {
    /// No payload read yet.
    pub fn new() -> (progress: Self)
        ensures
            progress.processed_message_count == 0,
            progress.persisted_candle_update_count == 0,
            progress.persisted_snapshot_update_count == 0,
    {
        LiveSyncProgress {
            processed_message_count: 0,
            persisted_candle_update_count: 0,
            persisted_snapshot_update_count: 0,
        }
    }

    /// Counts a stored kline update.
    pub fn record_candle_update(&mut self)
        requires
            old(self).processed_message_count < usize::MAX,
            old(self).persisted_candle_update_count < usize::MAX,
        ensures
            final(self).processed_message_count == old(self).processed_message_count + 1,
            final(self).persisted_candle_update_count == old(self).persisted_candle_update_count
                + 1,
            final(self).persisted_snapshot_update_count
                == old(self).persisted_snapshot_update_count,
    {
        self.processed_message_count = self.processed_message_count + 1;
        self.persisted_candle_update_count = self.persisted_candle_update_count + 1;
    }

    /// Counts a stored mini-ticker snapshot.
    pub fn record_snapshot_update(&mut self)
        requires
            old(self).processed_message_count < usize::MAX,
            old(self).persisted_snapshot_update_count < usize::MAX,
        ensures
            final(self).processed_message_count == old(self).processed_message_count + 1,
            final(self).persisted_snapshot_update_count
                == old(self).persisted_snapshot_update_count + 1,
            final(self).persisted_candle_update_count == old(self).persisted_candle_update_count,
    {
        self.processed_message_count = self.processed_message_count + 1;
        self.persisted_snapshot_update_count = self.persisted_snapshot_update_count + 1;
    }

    /// Whether the analytics must be recomputed: only when a kline update was
    /// stored.
    pub fn needs_analytics(&self) -> (needed: bool)
        ensures
            needed == (self.persisted_candle_update_count > 0),
    {
        self.persisted_candle_update_count > 0
    }

    /// The status and message recorded at the end of the sync.
    pub fn health(&self) -> (res: (SourceStatus, String))
        ensures
            res.0 == (if self.processed_message_count == 0 {
                SourceStatus::Degraded
            } else {
                SourceStatus::Healthy
            }),
            res.1@ == live_sync_health_message(self.processed_message_count as nat),
    {
        BinanceLiveSyncTask.sync_health(self.processed_message_count)
    }
}

/// The health record of a Binance observation made at `observed_at_ms`.
pub fn binance_health_record(status: SourceStatus, message: String, observed_at_ms: i64) -> (record:
    SourceHealthRecord)
    ensures
        record.source_id@ == binance_source_id(),
        record.status@ == source_status_label(status),
        record.message == message,
        record.observed_at_ms == observed_at_ms,
        record.created_at_ms == observed_at_ms,
{
    SourceHealthRecord {
        source_id: "binance".to_owned(),
        status: status.as_str().to_owned(),
        message,
        observed_at_ms,
        created_at_ms: observed_at_ms,
    }
}

/// The message recorded when a Binance sync fails with `error`.
pub fn sync_failure_message(error: &str) -> (message: String)
    ensures
        message@ == "Binance sync failed: "@ + error@,
{
    let mut message = "Binance sync failed: ".to_owned();
    message.append(error);
    message
}

/// The last successful update of the first snapshot of `source_id`, if there
/// is such a snapshot and it has one.
pub open spec fn last_success_of(snapshots: Seq<SourceHealthSnapshot>, source_id: Seq<char>) -> Option<
    i64,
>
    decreases snapshots.len(),
{
    if snapshots.len() == 0 {
        None
    } else if snapshots[0].latest_event.source_id@ == source_id {
        snapshots[0].last_successful_update_ms
    } else {
        last_success_of(snapshots.drop_first(), source_id)
    }
}

/// The last successful update of the first snapshot of `source_id`.
pub fn last_successful_update_of(snapshots: &Vec<SourceHealthSnapshot>, source_id: &str) -> (res:
    Option<i64>)
    ensures
        res == last_success_of(snapshots@, source_id@),
{
    let n = snapshots.len();
    let mut i: usize = 0;
    assert(snapshots@.subrange(0, n as int) =~= snapshots@);
    while i < n
        invariant
            n == snapshots@.len(),
            i <= n,
            last_success_of(snapshots@, source_id@) == last_success_of(
                snapshots@.subrange(i as int, n as int),
                source_id@,
            ),
        decreases n - i,
    {
        let ghost rest = snapshots@.subrange(i as int, n as int);
        assert(rest[0] == snapshots@[i as int]);
        assert(rest.drop_first() =~= snapshots@.subrange(i + 1, n as int));
        if str_eq(snapshots[i].latest_event.source_id.as_str(), source_id) {
            return snapshots[i].last_successful_update_ms;
        }
        i = i + 1;
    }
    None
}

/// The system clock's time.
#[verifier::external_type_specification]
#[verifier::external_body]
pub struct ExSystemTime(std::time::SystemTime);

/// The error of a clock reading before the Unix epoch.
#[verifier::external_type_specification]
#[verifier::external_body]
pub struct ExSystemTimeError(std::time::SystemTimeError);

/// `SystemTime::now`: the machine's clock. Nothing is stated of it.
#[verifier::external_body]
fn system_time_now() -> (now: std::time::SystemTime) {
    std::time::SystemTime::now()
}

/// `SystemTime::duration_since` with the Unix epoch: the time elapsed since
/// the epoch, or an error when `time` lies before it. Nothing is stated of
/// the value.
#[verifier::external_body]
fn duration_since_epoch(time: std::time::SystemTime) -> (res: Result<
    core::time::Duration,
    std::time::SystemTimeError,
>) {
    time.duration_since(std::time::UNIX_EPOCH)
}

/// `Duration::as_millis`: the whole milliseconds of `duration`. Nothing is
/// stated, as a duration is opaque here.
#[verifier::external_body]
fn duration_millis(duration: core::time::Duration) -> (ms: u128) {
    duration.as_millis()
}

/// The text of a clock error, by its `Display` (`to_string`).
#[verifier::external_body]
fn clock_error_text(error: std::time::SystemTimeError) -> (text: String) {
    error.to_string()
}

/// The current time in milliseconds since the Unix epoch, capped at
/// `i64::MAX`; an error when the clock is before the epoch.
pub fn current_time_ms() -> (res: Result<i64, String>)
    ensures
        res matches Ok(ms) ==> ms >= 0,
{
    let elapsed = match duration_since_epoch(system_time_now()) {
        Ok(duration) => Ok(duration_millis(duration)),
        Err(error) => Err(clock_error_text(error)),
    };
    epoch_millis_to_time_ms(elapsed)
}

/// The time in milliseconds that a reading of the clock gives: the elapsed
/// milliseconds capped at `i64::MAX`, or the clock's error unchanged.
pub fn epoch_millis_to_time_ms(elapsed: Result<u128, String>) -> (res: Result<i64, String>)
    ensures
        match elapsed {
            Ok(ms) => res == Ok::<i64, String>(
                if ms > i64::MAX as u128 { i64::MAX } else { ms as i64 },
            ),
            Err(error) => res == Err::<i64, String>(error),
        },
{
    match elapsed {
        Ok(ms) => {
            if ms > i64::MAX as u128 {
                Ok(i64::MAX)
            } else {
                Ok(ms as i64)
            }
        },
        Err(error) => Err(error),
    }
}

} // verus!
