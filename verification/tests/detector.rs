use perpscreener::candle::Candle;
use perpscreener::config::{ConfigError, ConfirmationMode, DoubleTopConfig};
use perpscreener::double_top::{Alert, DoubleTopDetector, PatternState};

fn make_candle(high: u64, low: u64, close: u64) -> Candle {
    Candle {
        open_time: 0,
        close_time: 0,
        open: close,
        high,
        low,
        close,
        volume: 0,
        num_trades: 0,
        interval: None,
        symbol: None,
    }
}

fn make_config() -> DoubleTopConfig {
    DoubleTopConfig {
        warmup_candles: 20, // Small warmup for tests
        history_window: 100,
        peak_lookback: 10,
        max_peak_distance: 50,
        peak_tolerance_bp: 150,
        min_pullback_bp: 200,
        min_pattern_height_bp: 200,
        approach_threshold_bp: 100,
        atr_period: 14,
        rev_atr_bp: 10000,
        breakdown_buffer_bp: 3000,
        confirmation_mode: ConfirmationMode::Close,
        peak_fail_bp: 150,
        trend_lookback: 3,
    }
}

fn warmup_detector(detector: &mut DoubleTopDetector) {
    // Feed some candles to warm up
    for i in 0..20u64 {
        let price = 9500 + i * 10;
        detector.process_candle(&make_candle(price + 50, price - 50, price));
    }
}

#[test]
fn test_initial_state() {
    let config = make_config();
    let detector = DoubleTopDetector::new("BTC".to_string(), config).unwrap();
    assert_eq!(detector.state(), PatternState::Watching);
}

#[test]
fn test_peak_detection() {
    let config = make_config();
    let mut detector = DoubleTopDetector::new("BTC".to_string(), config).unwrap();

    warmup_detector(&mut detector);

    // Create a clear peak
    detector.process_candle(&make_candle(10000, 9800, 9900));
    detector.process_candle(&make_candle(10200, 9900, 10100));
    detector.process_candle(&make_candle(10500, 10000, 10400)); // Peak

    // Sharp drop to trigger swing detection
    detector.process_candle(&make_candle(10300, 9800, 9900));
    detector.process_candle(&make_candle(9900, 9600, 9700));

    // Should have found peak
    assert!(
        detector.state() == PatternState::PeakFound
            || detector.state() == PatternState::TroughFound
    );
}

#[test]
fn rejects_zero_volatility_window() {
    let config = DoubleTopConfig {
        atr_period: 0,
        ..make_config()
    };
    let err = match DoubleTopDetector::new("BTC".to_string(), config) {
        Err(e) => e,
        Ok(_) => panic!("expected the configuration to be rejected"),
    };
    assert_eq!(err, ConfigError::ZeroAtrPeriod);
}

#[test]
fn rejects_oversized_threshold() {
    let config = DoubleTopConfig {
        peak_tolerance_bp: 2_000_000,
        ..make_config()
    };
    let err = match DoubleTopDetector::new("BTC".to_string(), config) {
        Err(e) => e,
        Ok(_) => panic!("expected the configuration to be rejected"),
    };
    assert_eq!(err, ConfigError::ThresholdTooLarge);
}

fn scenario_config() -> DoubleTopConfig {
    DoubleTopConfig {
        warmup_candles: 1,
        history_window: 10,
        peak_lookback: 0,
        max_peak_distance: 50,
        peak_tolerance_bp: 150,
        min_pullback_bp: 200,
        min_pattern_height_bp: 200,
        approach_threshold_bp: 100,
        atr_period: 1,
        rev_atr_bp: 10000,
        breakdown_buffer_bp: 0,
        confirmation_mode: ConfirmationMode::Close,
        peak_fail_bp: 1000,
        trend_lookback: 1,
    }
}

// Scenario: a synthetic rise-fall-rise-fall-below-neckline sequence
// reaches Confirmed; the emitted neckline equals the minimum tracked
// trough price, and the break price equals the triggering candle's close.
#[test]
fn full_pattern_reaches_confirmed() {
    let mut detector = DoubleTopDetector::new("BTC".to_string(), scenario_config()).unwrap();
    let mut alerts: Vec<Alert> = Vec::new();

    let candles = [
        (10000u64, 9950u64, 9980u64), // seeds the swing detector
        (10050, 10000, 10020),        // rise
        (10050, 9930, 9940),          // drop confirms peak 1 at 100.50
        (9940, 9700, 9720),           // fall to the trough at 97.00
        (9960, 9730, 9950),           // re-approach: early warning
        (10020, 9960, 10010),         // rise towards the second peak
        (10000, 9940, 9950),          // drop confirms peak 2 at 100.20
        (9800, 9600, 9650),           // close below the neckline
    ];
    for (h, l, c) in candles {
        if let Some(alert) = detector.process_candle(&make_candle(h, l, c)) {
            alerts.push(alert);
        }
    }

    assert_eq!(detector.state(), PatternState::Confirmed);
    assert_eq!(detector.peak1_price(), Some(10050));
    assert_eq!(detector.peak2_price(), Some(10020));
    assert_eq!(detector.neckline_price(), Some(9700));

    assert_eq!(alerts.len(), 2);
    match &alerts[0] {
        Alert::EarlyWarning {
            coin,
            peak_price,
            current_price,
        } => {
            assert_eq!(coin, "BTC");
            assert_eq!(*peak_price, 10050);
            assert_eq!(*current_price, 9950);
        }
        other => panic!("expected an early warning, got {:?}", other),
    }
    match &alerts[1] {
        Alert::Confirmation {
            coin,
            neckline_price,
            break_price,
        } => {
            assert_eq!(coin, "BTC");
            assert_eq!(*neckline_price, 9700);
            assert_eq!(*break_price, 9650);
        }
        other => panic!("expected a confirmation, got {:?}", other),
    }
}

// Exceeding the fail level while a pattern is tracked invalidates it,
// whatever else the candle does.
#[test]
fn fail_level_breach_invalidates() {
    let mut detector = DoubleTopDetector::new("BTC".to_string(), scenario_config()).unwrap();

    detector.process_candle(&make_candle(10000, 9950, 9980));
    detector.process_candle(&make_candle(10050, 10000, 10020));
    detector.process_candle(&make_candle(10050, 9930, 9940)); // peak 1 at 100.50
    assert_eq!(detector.state(), PatternState::PeakFound);

    // fail level is 100.50 * 1.10 = 110.55; pierce it
    detector.process_candle(&make_candle(11100, 10000, 10100));
    assert_eq!(detector.state(), PatternState::Invalidated);
    // tracked peak and trough state is cleared
    assert_eq!(detector.peak1_price(), None);
    assert_eq!(detector.neckline_price(), None);
    assert_eq!(detector.peak2_price(), None);
}

// The early warning fires once per pattern instance; only a fresh first
// peak re-arms it.
#[test]
fn early_warning_fires_once_then_rearms() {
    let mut detector = DoubleTopDetector::new("BTC".to_string(), scenario_config()).unwrap();
    let mut warnings = 0;

    let first_pattern = [
        (10000u64, 9950u64, 9980u64),
        (10050, 10000, 10020),
        (10050, 9930, 9940), // peak 1
        (9940, 9700, 9720),  // trough
        (9960, 9730, 9950),  // early warning
        (10020, 9960, 10010),
        (10000, 9960, 9990), // close again near the peak: no second warning
    ];
    for (h, l, c) in first_pattern {
        if let Some(Alert::EarlyWarning { .. }) = detector.process_candle(&make_candle(h, l, c)) {
            warnings += 1;
        }
    }
    assert_eq!(warnings, 1);
    assert_eq!(detector.state(), PatternState::Forming);

    // invalidate, then build a fresh pattern: the warning is re-armed
    detector.process_candle(&make_candle(11200, 10100, 10150));
    assert_eq!(detector.state(), PatternState::Invalidated);

    let second_pattern = [
        (10160u64, 10000u64, 10020u64), // fresh peak 1 at the 112.00 spike
        (10980, 10800, 10850),          // pullback confirms a trough at 100.00
        (11150, 10900, 11100),          // re-approach the spike
    ];
    for (h, l, c) in second_pattern {
        if let Some(Alert::EarlyWarning { .. }) = detector.process_candle(&make_candle(h, l, c)) {
            warnings += 1;
        }
    }
    assert_eq!(warnings, 2);
}

// The fail level is a strict bound: a high exactly on it does not
// invalidate, one hundredth above it does.
#[test]
fn fail_level_boundary_is_strict() {
    let mut detector = DoubleTopDetector::new("BTC".to_string(), scenario_config()).unwrap();

    detector.process_candle(&make_candle(10000, 9950, 9980));
    detector.process_candle(&make_candle(10050, 10000, 10020));
    detector.process_candle(&make_candle(10050, 9930, 9940)); // peak 1 at 100.50
    assert_eq!(detector.state(), PatternState::PeakFound);

    // fail level = 100.50 * 1.10 = 110.55 exactly
    detector.process_candle(&make_candle(11055, 10900, 11000));
    assert_eq!(detector.state(), PatternState::PeakFound);

    detector.process_candle(&make_candle(11056, 10900, 11000));
    assert_eq!(detector.state(), PatternState::Invalidated);
}

#[test]
fn no_processing_before_warmup() {
    let config = DoubleTopConfig {
        warmup_candles: 5,
        ..scenario_config()
    };
    let mut detector = DoubleTopDetector::new("BTC".to_string(), config).unwrap();
    assert!(!detector.is_warmed_up());

    // a sequence that would otherwise record a first peak
    detector.process_candle(&make_candle(10000, 9950, 9980));
    detector.process_candle(&make_candle(10050, 10000, 10020));
    detector.process_candle(&make_candle(10050, 9930, 9940));
    assert_eq!(detector.state(), PatternState::Watching);
    assert!(!detector.is_warmed_up());

    detector.process_candle(&make_candle(9940, 9700, 9720));
    detector.process_candle(&make_candle(9960, 9730, 9950));
    assert!(detector.is_warmed_up());
}
