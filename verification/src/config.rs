use vstd::prelude::*;

verus! {

/// How a breakdown through the neckline is confirmed.
#[derive(Debug, Clone, Copy, PartialEq, Eq, Structural)]
pub enum ConfirmationMode {
    /// Aggressive: trigger on a wick break.
    Low,
    /// Conservative: trigger on a close below the neckline.
    Close,
}

/// Configuration for double top detection.
///
/// Percentage thresholds are given in basis points (hundredths of a
/// percent), and multiples of the volatility estimate in ten-thousandths,
/// so that every comparison in the detector is exact integer arithmetic.
#[derive(Debug, Clone, Copy, PartialEq, Eq, Structural)]
pub struct DoubleTopConfig {
    /// Historical candles to fetch on startup.
    pub warmup_candles: usize,
    /// Rolling candle window size kept for the trend lookback.
    pub history_window: usize,
    /// Candles on each side to confirm a peak (backtest only).
    pub peak_lookback: usize,
    /// Max candles between the two peaks.
    pub max_peak_distance: usize,
    /// Max difference between peak prices, in basis points.
    pub peak_tolerance_bp: u64,
    /// Min drop to the trough from the first peak, in basis points.
    pub min_pullback_bp: u64,
    /// Min height from the peaks to the neckline, in basis points.
    pub min_pattern_height_bp: u64,
    /// Distance to the first peak that flags an early warning, in basis points.
    pub approach_threshold_bp: u64,
    /// Window of the volatility estimator.
    pub atr_period: usize,
    /// Swing reversal size, as a multiple of the volatility estimate in
    /// ten-thousandths.
    pub rev_atr_bp: u64,
    /// Buffer below the neckline, as a multiple of the volatility estimate in
    /// ten-thousandths.
    pub breakdown_buffer_bp: u64,
    /// How a breakdown is confirmed.
    pub confirmation_mode: ConfirmationMode,
    /// Rise above the first peak that invalidates the pattern, in basis points.
    pub peak_fail_bp: u64,
    /// Candles to check for an uptrend in the early warning.
    pub trend_lookback: usize,
}

/// Largest accepted threshold: 1,000,000 basis points, that is 100 times
/// the reference value. Keeping thresholds under this cap lets every
/// product of a threshold with a price fit in 128 bits.
pub const MAX_THRESHOLD_BP: u64 = 1_000_000;

impl DoubleTopConfig {
    /// A configuration the detector can run on: the volatility window must
    /// not be empty, since the estimator divides by it, and every
    /// threshold must stay under `MAX_THRESHOLD_BP`.
    pub open spec fn valid(self) -> bool {
        &&& self.atr_period >= 1
        &&& self.peak_tolerance_bp <= MAX_THRESHOLD_BP
        &&& self.min_pullback_bp <= MAX_THRESHOLD_BP
        &&& self.min_pattern_height_bp <= MAX_THRESHOLD_BP
        &&& self.approach_threshold_bp <= MAX_THRESHOLD_BP
        &&& self.rev_atr_bp <= MAX_THRESHOLD_BP
        &&& self.breakdown_buffer_bp <= MAX_THRESHOLD_BP
        &&& self.peak_fail_bp <= MAX_THRESHOLD_BP
    }

    /// Runtime counterpart of `valid`, for checks at construction time.
    pub fn is_valid(&self) -> (r: bool)
        ensures
            r == self.valid(),
    {
        self.atr_period >= 1 && self.peak_tolerance_bp <= MAX_THRESHOLD_BP
            && self.min_pullback_bp <= MAX_THRESHOLD_BP
            && self.min_pattern_height_bp <= MAX_THRESHOLD_BP
            && self.approach_threshold_bp <= MAX_THRESHOLD_BP
            && self.rev_atr_bp <= MAX_THRESHOLD_BP
            && self.breakdown_buffer_bp <= MAX_THRESHOLD_BP
            && self.peak_fail_bp <= MAX_THRESHOLD_BP
    }
}

impl Default for DoubleTopConfig {
    /// The stock configuration: 1.5% peak tolerance, 2% pullback and
    /// pattern height, 1% approach threshold, 1.5% fail level, a 14-candle
    /// volatility window, a 1.0x reversal multiple and a 0.3x breakdown
    /// buffer.
    fn default() -> (r: Self)
        ensures
            r == (DoubleTopConfig {
                warmup_candles: 200,
                history_window: 300,
                peak_lookback: 10,
                max_peak_distance: 60,
                peak_tolerance_bp: 150,
                min_pullback_bp: 200,
                min_pattern_height_bp: 200,
                approach_threshold_bp: 100,
                atr_period: 14,
                rev_atr_bp: 10000,
                breakdown_buffer_bp: 3000,
                confirmation_mode: ConfirmationMode::Close,
                peak_fail_bp: 150,
                trend_lookback: 3,
            }),
            r.valid(),
    {
        DoubleTopConfig {
            warmup_candles: 200,
            history_window: 300,
            peak_lookback: 10,
            max_peak_distance: 60,
            peak_tolerance_bp: 150,
            min_pullback_bp: 200,
            min_pattern_height_bp: 200,
            approach_threshold_bp: 100,
            atr_period: 14,
            rev_atr_bp: 10000,
            breakdown_buffer_bp: 3000,
            confirmation_mode: ConfirmationMode::Close,
            peak_fail_bp: 150,
            trend_lookback: 3,
        }
    }
}

/// Rejected configuration, reported when a detector is constructed.
#[derive(Debug, Clone, Copy, PartialEq, Eq, Structural)]
pub enum ConfigError {
    /// The volatility window was empty.
    ZeroAtrPeriod,
    /// A threshold exceeded `MAX_THRESHOLD_BP`.
    ThresholdTooLarge,
}

} // verus!
