use perpscreener::candle::{normalize_candles, Candle};
use perpscreener::chart::{
    build_time_range, default_limit, interval_ms, supported_intervals, validate_interval,
    ChartStreamQuery,
};

fn make_candle(high: u64, low: u64, close: u64) -> Candle {
    Candle {
        open_time: 0,
        close_time: 0,
        open: close,
        high,
        low,
        close,
        volume: 0,
        num_trades: 0,
        interval: None,
        symbol: None,
    }
}

#[test]
fn interval_ms_supports_all_intervals() {
    for interval in supported_intervals() {
        assert!(
            interval_ms(interval).is_some(),
            "missing interval: {}",
            interval
        );
    }
}

#[test]
fn interval_ms_rejects_unknown() {
    assert!(interval_ms("10m").is_none());
}

#[test]
fn validate_interval_rejects_unknown() {
    let error = validate_interval("10m").unwrap_err();
    assert_eq!(error.code, "unsupported_interval");
}

#[test]
fn chart_stream_query_requires_coin_and_limit_bounds() {
    let mut query = ChartStreamQuery {
        coin: "".to_string(),
        interval: "1m".to_string(),
        limit: 0,
    };
    assert!(query.validate().is_err());

    query.coin = "BTC".to_string();
    query.limit = 5001;
    assert!(query.validate().is_err());

    query.limit = 5000;
    assert!(query.validate().is_ok());
}

#[test]
fn build_time_range_uses_limit_and_interval() {
    let now_ms = 1_000_000;
    let interval_ms = 60_000;
    let (start_time, end_time) = build_time_range(now_ms, interval_ms, 5);

    assert_eq!(end_time, now_ms);
    assert_eq!(start_time, now_ms - (interval_ms * 5));
}

#[test]
fn query_validation_reports_field_codes() {
    let query = ChartStreamQuery {
        coin: "THISCOINNAMEISWAYTOOLONGTOPASS".to_string(),
        interval: "1m".to_string(),
        limit: 10,
    };
    assert_eq!(query.validate().unwrap_err().code, "length");

    let query = ChartStreamQuery {
        coin: "BTC".to_string(),
        interval: "1m".to_string(),
        limit: 0,
    };
    assert_eq!(query.validate().unwrap_err().code, "range");

    let query = ChartStreamQuery {
        coin: "BTC".to_string(),
        interval: "2w".to_string(),
        limit: 10,
    };
    assert_eq!(query.validate().unwrap_err().code, "unsupported_interval");
}

#[test]
fn build_time_range_clamps_at_epoch() {
    let (start_time, end_time) = build_time_range(100, 60_000, 5);
    assert_eq!(start_time, 0);
    assert_eq!(end_time, 100);
}

#[test]
fn interval_ms_exact_values() {
    assert_eq!(interval_ms("1m"), Some(60_000));
    assert_eq!(interval_ms("1h"), Some(3_600_000));
    assert_eq!(interval_ms("1d"), Some(86_400_000));
    assert_eq!(interval_ms("1w"), Some(604_800_000));
    assert_eq!(interval_ms("1M"), Some(2_592_000_000));
    assert_eq!(interval_ms(""), None);
    assert_eq!(interval_ms("1"), None);
}

#[test]
fn default_limit_is_200() {
    assert_eq!(default_limit(), 200);
}

#[test]
fn normalize_candles_sets_missing_fields() {
    let mut candles = vec![Candle {
        open_time: 1,
        close_time: 2,
        open: 100,
        high: 200,
        low: 50,
        close: 150,
        volume: 1000,
        num_trades: 5,
        interval: None,
        symbol: None,
    }];

    normalize_candles(&mut candles, "BTC", "1m");

    assert_eq!(candles[0].interval.as_deref(), Some("1m"));
    assert_eq!(candles[0].symbol.as_deref(), Some("BTC"));
}

#[test]
fn normalize_candles_keeps_present_fields() {
    let mut candles = vec![Candle {
        interval: Some("5m".to_string()),
        symbol: Some("ETH".to_string()),
        ..make_candle(200, 50, 150)
    }];

    normalize_candles(&mut candles, "BTC", "1m");

    assert_eq!(candles[0].interval.as_deref(), Some("5m"));
    assert_eq!(candles[0].symbol.as_deref(), Some("ETH"));
}

#[test]
fn candle_validity_checks_price_range() {
    assert!(make_candle(200, 50, 150).is_valid());
    // close above the high
    assert!(!make_candle(200, 50, 250).is_valid());
    // low above the high
    let c = Candle {
        open_time: 0,
        close_time: 0,
        open: 90,
        high: 80,
        low: 90,
        close: 85,
        volume: 0,
        num_trades: 0,
        interval: None,
        symbol: None,
    };
    assert!(!c.is_valid());
}
