use perpscreener::candle::Candle;
use perpscreener::indicators::{AtrCalculator, SwingDetector};

fn make_candle(high: u64, low: u64, close: u64) -> Candle {
    Candle {
        open_time: 0,
        close_time: 0,
        open: close,
        high,
        low,
        close,
        volume: 0,
        num_trades: 0,
        interval: None,
        symbol: None,
    }
}

#[test]
fn test_atr_calculation() {
    let mut atr = AtrCalculator::new(3);

    // First 3 candles to warm up
    assert!(atr.update(&make_candle(10200, 9800, 10000)).is_none()); // TR = 400
    assert!(atr.update(&make_candle(10400, 9900, 10200)).is_none()); // TR = 500
    let result = atr.update(&make_candle(10300, 10000, 10100)); // TR = 300

    // Initial estimate = (400 + 500 + 300) / 3 = 400
    assert!(result.is_some());
    assert_eq!(result.unwrap(), 400);
}

// Scenario: period 3; candles (102,98,100), (104,99,102), (103,100,101)
// give true ranges 4, 5, 3, so the third update returns exactly their
// mean, 4.00 (prices in hundredths).
#[test]
fn estimator_returns_mean_of_first_period_true_ranges() {
    let mut atr = AtrCalculator::new(3);
    assert_eq!(atr.update(&make_candle(10200, 9800, 10000)), None);
    assert_eq!(atr.update(&make_candle(10400, 9900, 10200)), None);
    assert_eq!(atr.update(&make_candle(10300, 10000, 10100)), Some(400));
}

#[test]
fn estimator_smoothing_rounds_down() {
    let mut atr = AtrCalculator::new(3);
    atr.update(&make_candle(10200, 9800, 10000)); // TR = 400
    atr.update(&make_candle(10400, 9900, 10200)); // TR = 500
    assert_eq!(atr.update(&make_candle(10300, 10000, 10100)), Some(400)); // TR = 300
    // TR = 100: (400 * 2 + 100) / 3 = 300
    assert_eq!(atr.update(&make_candle(10150, 10050, 10100)), Some(300));
    // TR = 100: (300 * 2 + 100) / 3 = 233 (truncated)
    assert_eq!(atr.update(&make_candle(10150, 10050, 10100)), Some(233));
}

#[test]
fn estimator_none_until_period_then_wilder_smoothing() {
    let mut atr = AtrCalculator::new(2);
    assert_eq!(atr.update(&make_candle(10100, 10000, 10050)), None); // TR = 100
    assert_eq!(atr.update(&make_candle(10150, 10050, 10100)), Some(100)); // TR = 100
    // TR = max(300, |10400-10100|, |10100-10100|) = 300;
    // smoothed: (100 * 1 + 300) / 2 = 200
    assert_eq!(atr.update(&make_candle(10400, 10100, 10200)), Some(200));
}

#[test]
fn test_swing_detector_peak() {
    let mut detector = SwingDetector::new(10000); // 1.0x reversal multiple
    let atr = 200; // 2.00 of volatility

    // Rising price
    detector.update(&make_candle(10000, 9800, 9900), atr);
    detector.update(&make_candle(10200, 9900, 10100), atr);
    detector.update(&make_candle(10500, 10100, 10400), atr);

    // Drop that triggers reversal (drop of 300 >= 200)
    let swing = detector.update(&make_candle(10400, 10200, 10250), atr);

    // Should detect peak at 105.00
    assert!(swing.is_some());
    let point = swing.unwrap();
    assert!(point.is_peak);
    assert_eq!(point.price, 10500);
}

#[test]
fn swing_detector_emits_trough_after_peak() {
    let mut detector = SwingDetector::new(10000);
    let atr = 200;

    detector.update(&make_candle(10000, 9900, 9950), atr);
    let peak = detector.update(&make_candle(10000, 9700, 9750), atr);
    assert!(peak.is_some());
    assert!(peak.unwrap().is_peak);

    // New low, then a rise of at least the threshold above it
    let trough = detector.update(&make_candle(9900, 9650, 9880), atr);
    assert!(trough.is_some());
    let point = trough.unwrap();
    assert!(!point.is_peak);
    assert_eq!(point.price, 9650);
}

// The emitted swing points always alternate in polarity, whatever the
// candle stream does.
#[test]
fn swing_points_alternate_polarity() {
    let mut detector = SwingDetector::new(10000);
    let candles = [
        (10000u64, 9900u64, 9950u64),
        (10300, 10000, 10250),
        (10350, 9900, 9950),
        (10400, 9850, 10390),
        (10500, 10350, 10480),
        (10100, 9800, 9850),
        (9900, 9500, 9550),
        (10200, 9700, 10150),
        (10600, 10100, 10550),
        (10050, 9800, 9900),
        (9700, 9300, 9400),
        (10100, 9650, 10050),
    ];
    let mut polarities: Vec<bool> = Vec::new();
    for (h, l, c) in candles {
        if let Some(p) = detector.update(&make_candle(h, l, c), 150) {
            polarities.push(p.is_peak);
        }
    }
    assert!(polarities.len() >= 2, "scenario should emit several points");
    for w in polarities.windows(2) {
        assert_ne!(w[0], w[1], "two consecutive points share a polarity");
    }
}

#[test]
fn first_candle_seeds_and_emits_nothing() {
    let mut detector = SwingDetector::new(0);
    // even with a zero threshold the first candle only seeds the state
    assert!(detector.update(&make_candle(10000, 9000, 9500), 0).is_none());
}
