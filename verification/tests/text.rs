use perpscreener::double_top::PatternState;
use perpscreener::errors::{AppError, HealthResponse};
use perpscreener::status::state_label;
use perpscreener::text::{build_summary, format_price, format_u64, str_le};

#[test]
fn format_u64_writes_decimal() {
    assert_eq!(format_u64(0), "0");
    assert_eq!(format_u64(7), "7");
    assert_eq!(format_u64(10), "10");
    assert_eq!(format_u64(10500), "10500");
    assert_eq!(format_u64(90210), "90210");
}

#[test]
fn format_price_uses_two_decimals() {
    assert_eq!(format_price(10500), "105.00");
    assert_eq!(format_price(9700), "97.00");
    assert_eq!(format_price(7), "0.07");
    assert_eq!(format_price(70), "0.70");
    assert_eq!(format_price(123456), "1234.56");
    assert_eq!(format_price(0), "0.00");
}

#[test]
fn state_labels_match_reporting_names() {
    assert_eq!(state_label(PatternState::Watching), "WATCHING");
    assert_eq!(state_label(PatternState::PeakFound), "PEAK_FOUND");
    assert_eq!(state_label(PatternState::TroughFound), "TROUGH_FOUND");
    assert_eq!(state_label(PatternState::Forming), "FORMING");
    assert_eq!(state_label(PatternState::Confirmed), "CONFIRMED");
    assert_eq!(state_label(PatternState::Invalidated), "INVALIDATED");
}

#[test]
fn summaries_are_phrased_per_state() {
    assert_eq!(
        build_summary("BTC", PatternState::Watching, None, None, false),
        "BTC: warming up, collecting candles before detection."
    );
    assert_eq!(
        build_summary("BTC", PatternState::Watching, None, None, true),
        "BTC: watching for the first peak."
    );
    assert_eq!(
        build_summary("BTC", PatternState::PeakFound, Some(10050), None, true),
        "BTC: first peak found at $100.50; waiting for pullback."
    );
    assert_eq!(
        build_summary(
            "ETH",
            PatternState::TroughFound,
            Some(10050),
            Some(9700),
            true
        ),
        "ETH: trough at $97.00 after peak at $100.50; watching for second peak."
    );
    assert_eq!(
        build_summary("SOL", PatternState::Forming, Some(10050), None, true),
        "SOL: price is approaching the first peak near $100.50 (early warning)."
    );
    assert_eq!(
        build_summary("BTC", PatternState::Confirmed, Some(10050), Some(9700), true),
        "BTC: double top confirmed; broke neckline near $97.00."
    );
    assert_eq!(
        build_summary("BTC", PatternState::Invalidated, None, None, true),
        "BTC: pattern invalidated; watching for new setup."
    );
}

#[test]
fn str_le_orders_lexicographically() {
    assert!(str_le("", "BTC"));
    assert!(str_le("BTC", "BTC"));
    assert!(str_le("BTC", "ETH"));
    assert!(!str_le("ETH", "BTC"));
    assert!(str_le("BTC", "BTCX"));
    assert!(!str_le("BTCX", "BTC"));
}

#[test]
fn app_error_messages_carry_the_class() {
    assert_eq!(
        AppError::Validation("bad coin".to_string()).message(),
        "validation error: bad coin"
    );
    assert_eq!(
        AppError::Upstream("timeout".to_string()).message(),
        "upstream error: timeout"
    );
    assert_eq!(
        AppError::Internal("oops".to_string()).message(),
        "internal error: oops"
    );
}

#[test]
fn health_response_is_healthy() {
    assert_eq!(HealthResponse::healthy().status, "healthy");
}
