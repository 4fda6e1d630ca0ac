use perpscreener::candle::Candle;
use perpscreener::config::{ConfigError, ConfirmationMode, DoubleTopConfig};
use perpscreener::monitor::{MonitorService, INTERVAL_MS};

fn make_candle_at(close_time: u64, high: u64, low: u64, close: u64) -> Candle {
    Candle {
        open_time: close_time.saturating_sub(INTERVAL_MS),
        close_time,
        open: close,
        high,
        low,
        close,
        volume: 0,
        num_trades: 0,
        interval: None,
        symbol: None,
    }
}

fn test_config() -> DoubleTopConfig {
    DoubleTopConfig {
        warmup_candles: 2,
        history_window: 10,
        peak_lookback: 0,
        max_peak_distance: 50,
        peak_tolerance_bp: 150,
        min_pullback_bp: 200,
        min_pattern_height_bp: 200,
        approach_threshold_bp: 100,
        atr_period: 1,
        rev_atr_bp: 10000,
        breakdown_buffer_bp: 0,
        confirmation_mode: ConfirmationMode::Close,
        peak_fail_bp: 1000,
        trend_lookback: 1,
    }
}

fn coins(names: &[&str]) -> Vec<String> {
    names.iter().map(|n| n.to_string()).collect()
}

#[test]
fn monitor_sorts_and_deduplicates_instruments() {
    let service = MonitorService::new(coins(&["ETH", "BTC", "SOL", "BTC"]), test_config()).unwrap();
    assert_eq!(service.coin_count(), 3);
    assert_eq!(service.coin_at(0), "BTC");
    assert_eq!(service.coin_at(1), "ETH");
    assert_eq!(service.coin_at(2), "SOL");

    let statuses = service.statuses();
    assert_eq!(statuses.len(), 3);
    assert_eq!(statuses[0].coin, "BTC");
    assert_eq!(statuses[1].coin, "ETH");
    assert_eq!(statuses[2].coin, "SOL");
    assert_eq!(statuses[0].state, "WATCHING");
    assert!(!statuses[0].is_warmed_up);
    assert_eq!(
        statuses[0].summary,
        "BTC: warming up, collecting candles before detection."
    );
}

#[test]
fn monitor_rejects_invalid_config() {
    let config = DoubleTopConfig {
        atr_period: 0,
        ..test_config()
    };
    let err = match MonitorService::new(coins(&["BTC"]), config) {
        Err(e) => e,
        Ok(_) => panic!("expected the configuration to be rejected"),
    };
    assert_eq!(err, ConfigError::ZeroAtrPeriod);
}

// Scenario: instrument A's fetch fails while instrument B's succeeds in
// the same cycle. B's watermark advances, A's does not, and neither
// instrument's processing raises an error out of the cycle.
#[test]
fn fetch_failure_is_isolated_per_instrument() {
    let mut service = MonitorService::new(coins(&["AAA", "BBB"]), test_config()).unwrap();
    let now = 10 * INTERVAL_MS;

    // A's fetch failed: nothing is ingested for index 0.
    let fetched_b = vec![
        make_candle_at(INTERVAL_MS, 10000, 9900, 9950),
        make_candle_at(2 * INTERVAL_MS, 10100, 9950, 10050),
    ];
    let alerts = service.ingest_candles(1, &fetched_b, now);
    assert!(alerts.is_empty());

    assert_eq!(service.watermark_at(0), None);
    assert_eq!(service.watermark_at(1), Some(2 * INTERVAL_MS));

    let statuses = service.statuses();
    assert!(!statuses[0].is_warmed_up, "AAA saw no candles");
    assert!(statuses[1].is_warmed_up, "BBB saw both candles");
}

#[test]
fn ingest_skips_unclosed_and_stale_candles() {
    let mut service = MonitorService::new(coins(&["BTC"]), test_config()).unwrap();
    let now = 3 * INTERVAL_MS;

    let first = vec![
        make_candle_at(INTERVAL_MS, 10000, 9900, 9950),
        // not fully closed yet at `now`: skipped
        make_candle_at(3 * INTERVAL_MS, 10100, 9950, 10050),
    ];
    service.ingest_candles(0, &first, now);
    assert_eq!(service.watermark_at(0), Some(INTERVAL_MS));
    assert!(!service.statuses()[0].is_warmed_up, "only one candle was fed");

    // the same closed candle again: filtered by the watermark
    let again = vec![make_candle_at(INTERVAL_MS, 10000, 9900, 9950)];
    service.ingest_candles(0, &again, now);
    assert_eq!(service.watermark_at(0), Some(INTERVAL_MS));
    assert!(!service.statuses()[0].is_warmed_up, "the candle was not re-fed");

    // a newer closed candle advances the watermark and warms the detector
    let newer = vec![make_candle_at(2 * INTERVAL_MS, 10100, 9950, 10050)];
    service.ingest_candles(0, &newer, now);
    assert_eq!(service.watermark_at(0), Some(2 * INTERVAL_MS));
    assert!(service.statuses()[0].is_warmed_up);
}

#[test]
fn snapshot_carries_timestamp_and_sorted_statuses() {
    let service = MonitorService::new(coins(&["ETH", "BTC"]), test_config()).unwrap();
    let snapshot = service.snapshot(123_456);
    assert_eq!(snapshot.as_of_ms, 123_456);
    assert_eq!(snapshot.patterns.len(), 2);
    assert_eq!(snapshot.patterns[0].coin, "BTC");
    assert_eq!(snapshot.patterns[1].coin, "ETH");
}

#[test]
fn alerts_are_tagged_with_the_instrument() {
    let mut service = MonitorService::new(coins(&["BTC"]), test_config()).unwrap();
    // the full-pattern sequence, one candle per minute, all closed
    let seq = [
        (10000u64, 9950u64, 9980u64),
        (10050, 10000, 10020),
        (10050, 9930, 9940),
        (9940, 9700, 9720),
        (9960, 9730, 9950),
        (10020, 9960, 10010),
        (10000, 9940, 9950),
        (9800, 9600, 9650),
    ];
    let candles: Vec<Candle> = seq
        .iter()
        .enumerate()
        .map(|(i, &(h, l, c))| make_candle_at((i as u64 + 1) * INTERVAL_MS, h, l, c))
        .collect();
    let now = 100 * INTERVAL_MS;

    let alerts = service.ingest_candles(0, &candles, now);
    assert_eq!(alerts.len(), 2);
    for alert in &alerts {
        match alert {
            perpscreener::double_top::Alert::EarlyWarning { coin, .. } => assert_eq!(coin, "BTC"),
            perpscreener::double_top::Alert::Confirmation { coin, .. } => assert_eq!(coin, "BTC"),
        }
    }

    let statuses = service.statuses();
    assert_eq!(statuses[0].state, "CONFIRMED");
    assert_eq!(statuses[0].neckline_price, Some(9700));
    assert_eq!(
        statuses[0].summary,
        "BTC: double top confirmed; broke neckline near $97.00."
    );
}
