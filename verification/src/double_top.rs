use vstd::prelude::*;

use crate::candle::Candle;
use crate::config::{ConfigError, DoubleTopConfig};
use crate::indicators::{
    abs_diff_int, spec_atr, spec_swing_step, spec_true_range, AtrCalculator, SwingDetector,
    SwingModel, SwingPoint,
};

verus! {

/// Pattern detection state, as reported to consumers.
#[derive(Debug, Clone, Copy, PartialEq, Eq, Structural)]
pub enum PatternState {
    /// Looking for the first peak.
    Watching,
    /// First peak identified, watching for the pullback.
    PeakFound,
    /// Pullback complete, watching for the second approach.
    TroughFound,
    /// Price approaching the first peak level (early warning sent).
    Forming,
    /// Breakdown below the neckline.
    Confirmed,
    /// Pattern invalidated.
    Invalidated,
}

/// Alert raised by the detector. Transient: alerts are handed to the
/// caller and not stored.
#[derive(Debug, Clone)]
pub enum Alert {
    /// Price is re-approaching the first peak after a qualifying pullback.
    EarlyWarning { coin: String, peak_price: u64, current_price: u64 },
    /// A close broke below the neckline: the pattern is confirmed.
    Confirmation { coin: String, neckline_price: u64, break_price: u64 },
}

/// A recorded peak: its price and the candle count at which it was seen.
#[derive(Debug, Clone, Copy, PartialEq, Eq, Structural)]
pub struct PeakInfo {
    /// Peak price, in hundredths.
    pub price: u64,
    /// Value of the detector's candle counter when the peak was recorded.
    pub candle_idx: usize,
}

/// Pattern tracking data. Each state carries exactly the data that is
/// meaningful in it, so that invalid combinations cannot be represented.
#[derive(Debug, Clone, Copy)]
pub enum PatternPhase {
    /// Nothing tracked yet.
    Watching,
    /// `peak1` recorded, waiting for a qualifying pullback.
    PeakFound { peak1: PeakInfo },
    /// A trough below `peak1` is tracked; `peak2` may already be recorded.
    TroughFound { peak1: PeakInfo, trough: u64, peak2: Option<PeakInfo> },
    /// The early warning has been sent for this pattern instance.
    Forming { peak1: PeakInfo, trough: u64, peak2: Option<PeakInfo> },
    /// A close broke the neckline while both peaks matched.
    Confirmed { peak1: PeakInfo, trough: u64, peak2: PeakInfo },
    /// The pattern failed; tracked peak and trough state is cleared.
    Invalidated,
}

/// A tracked peak in the detector's mathematical model.
pub struct PeakRec {
    /// Peak price.
    pub price: int,
    /// Candle count at which the peak was recorded.
    pub idx: int,
}

/// Mathematical counterpart of `PatternPhase`.
pub enum PhaseModel {
    Watching,
    PeakFound { peak1: PeakRec },
    TroughFound { peak1: PeakRec, trough: int, peak2: Option<PeakRec> },
    Forming { peak1: PeakRec, trough: int, peak2: Option<PeakRec> },
    Confirmed { peak1: PeakRec, trough: int, peak2: PeakRec },
    Invalidated,
}

impl PeakInfo {
    /// Mathematical view of the peak.
    pub open spec fn model(self) -> PeakRec {
        PeakRec { price: self.price as int, idx: self.candle_idx as int }
    }
}

/// Mathematical view of an optional peak.
pub open spec fn opt_peak_model(p: Option<PeakInfo>) -> Option<PeakRec> {
    match p {
        Some(q) => Some(q.model()),
        None => None,
    }
}

impl PatternPhase {
    /// Mathematical view of the tracking data.
    pub open spec fn model(self) -> PhaseModel {
        match self {
            PatternPhase::Watching => PhaseModel::Watching,
            PatternPhase::PeakFound { peak1 } => PhaseModel::PeakFound { peak1: peak1.model() },
            PatternPhase::TroughFound { peak1, trough, peak2 } => PhaseModel::TroughFound {
                peak1: peak1.model(),
                trough: trough as int,
                peak2: opt_peak_model(peak2),
            },
            PatternPhase::Forming { peak1, trough, peak2 } => PhaseModel::Forming {
                peak1: peak1.model(),
                trough: trough as int,
                peak2: opt_peak_model(peak2),
            },
            PatternPhase::Confirmed { peak1, trough, peak2 } => PhaseModel::Confirmed {
                peak1: peak1.model(),
                trough: trough as int,
                peak2: peak2.model(),
            },
            PatternPhase::Invalidated => PhaseModel::Invalidated,
        }
    }

}

/// The first peak of a pattern that is still being tracked: present in
/// exactly the states from which invalidation is evaluated.
pub open spec fn tracked_peak1(ph: PhaseModel) -> Option<PeakRec> {
    match ph {
        PhaseModel::PeakFound { peak1 } => Some(peak1),
        PhaseModel::TroughFound { peak1, .. } => Some(peak1),
        PhaseModel::Forming { peak1, .. } => Some(peak1),
        _ => None,
    }
}

/// A pattern instance is being tracked.
pub open spec fn is_tracking(ph: PhaseModel) -> bool {
    tracked_peak1(ph) is Some
}

// ---------------------------------------------------------------------
// The individual detection rules, as exact integer comparisons.
//
// A percentage comparison `a / b * 100 >= pct`, with thresholds carried
// in basis points (`bp == pct * 100`), is written `a * 10000 >= bp * b`,
// which is exact.
// ---------------------------------------------------------------------

/// The two peak prices match within the tolerance, measured against the
/// mean of the two prices: `|p1 - p2| / ((p1 + p2) / 2) * 100 <= tol`.
pub open spec fn spec_peaks_match(p1: int, p2: int, tol_bp: int) -> bool {
    abs_diff_int(p1, p2) * 20000 <= tol_bp * (p1 + p2)
}

/// The candle high exceeds the level that fails the pattern:
/// `high > peak1 * (1 + fail_pct / 100)`.
pub open spec fn spec_exceeds_fail_level(high: int, peak1: int, fail_bp: int) -> bool {
    high * 10000 > peak1 * (10000 + fail_bp)
}

/// The pullback from the first peak is deep enough:
/// `(peak1 - price) / peak1 * 100 >= min_pullback`.
pub open spec fn spec_pullback_reached(peak1: int, price: int, pullback_bp: int) -> bool {
    (peak1 - price) * 10000 >= pullback_bp * peak1
}

/// The pattern is tall enough: `(peak1 - trough) / peak1 * 100 >= min_height`.
pub open spec fn spec_height_reached(peak1: int, trough: int, height_bp: int) -> bool {
    (peak1 - trough) * 10000 >= height_bp * peak1
}

/// The close is near the first peak: `|peak1 - close| / peak1 * 100 <= threshold`.
pub open spec fn spec_within_approach(peak1: int, close: int, approach_bp: int) -> bool {
    abs_diff_int(peak1, close) * 10000 <= approach_bp * peak1
}

/// The close broke below the neckline by more than the volatility buffer:
/// `close < trough - buffer * atr`.
pub open spec fn spec_broke_neckline(close: int, trough: int, buffer_bp: int, atr: int) -> bool {
    close * 10000 < trough * 10000 - buffer_bp * atr
}

/// The close sits above the close `lookback` candles earlier, whenever the
/// window already reaches back that far. `closes` includes the current
/// candle.
pub open spec fn spec_uptrend_ok(closes: Seq<int>, lookback: int, close: int) -> bool {
    closes.len() > lookback ==> close > closes[closes.len() - lookback - 1]
}

// ---------------------------------------------------------------------
// The state machine, one rule at a time.
// ---------------------------------------------------------------------

/// How a confirmed swing point changes the tracking data.
///
/// A peak starts a pattern from `Watching` and restarts one from
/// `Confirmed` or `Invalidated`; in `TroughFound` or `Forming` it is
/// recorded as the second peak when it matches the first. A trough deep
/// enough below the first peak is recorded when it undercuts the tracked
/// trough (the neckline is only ever lowered); `Confirmed` and
/// `Invalidated` ignore troughs.
pub open spec fn spec_handle_swing(
    ph: PhaseModel,
    cfg: DoubleTopConfig,
    count: int,
    price: int,
    is_peak: bool,
) -> PhaseModel {
    match ph {
        PhaseModel::Watching => {
            if is_peak {
                PhaseModel::PeakFound { peak1: PeakRec { price, idx: count } }
            } else {
                ph
            }
        },
        PhaseModel::PeakFound { peak1 } => {
            if !is_peak && spec_pullback_reached(peak1.price, price, cfg.min_pullback_bp as int) {
                PhaseModel::TroughFound { peak1, trough: price, peak2: None }
            } else {
                ph
            }
        },
        PhaseModel::TroughFound { peak1, trough, peak2 } => {
            if !is_peak {
                if spec_pullback_reached(peak1.price, price, cfg.min_pullback_bp as int) && price
                    < trough {
                    PhaseModel::TroughFound { peak1, trough: price, peak2 }
                } else {
                    ph
                }
            } else {
                if spec_peaks_match(peak1.price, price, cfg.peak_tolerance_bp as int) {
                    PhaseModel::TroughFound {
                        peak1,
                        trough,
                        peak2: Some(PeakRec { price, idx: count }),
                    }
                } else {
                    ph
                }
            }
        },
        PhaseModel::Forming { peak1, trough, peak2 } => {
            if !is_peak {
                if spec_pullback_reached(peak1.price, price, cfg.min_pullback_bp as int) && price
                    < trough {
                    PhaseModel::Forming { peak1, trough: price, peak2 }
                } else {
                    ph
                }
            } else {
                if spec_peaks_match(peak1.price, price, cfg.peak_tolerance_bp as int) {
                    PhaseModel::Forming { peak1, trough, peak2: Some(PeakRec { price, idx: count }) }
                } else {
                    ph
                }
            }
        },
        PhaseModel::Confirmed { .. } => {
            if is_peak {
                PhaseModel::PeakFound { peak1: PeakRec { price, idx: count } }
            } else {
                ph
            }
        },
        PhaseModel::Invalidated => {
            if is_peak {
                PhaseModel::PeakFound { peak1: PeakRec { price, idx: count } }
            } else {
                ph
            }
        },
    }
}

/// The pattern currently being tracked has failed: the high pierced the
/// fail level, or too many candles have passed since the first peak.
pub open spec fn spec_invalidation(ph: PhaseModel, cfg: DoubleTopConfig, count: int, high: int) -> bool {
    match tracked_peak1(ph) {
        Some(peak1) => spec_exceeds_fail_level(high, peak1.price, cfg.peak_fail_bp as int) || count
            - peak1.idx > cfg.max_peak_distance,
        None => false,
    }
}

/// While a trough is tracked and no second peak has been recorded, a
/// candle low below the trough lowers it immediately.
pub open spec fn spec_tighten_neckline(ph: PhaseModel, low: int) -> PhaseModel {
    match ph {
        PhaseModel::TroughFound { peak1, trough, peak2 } => {
            if peak2 is None && low < trough {
                PhaseModel::TroughFound { peak1, trough: low, peak2 }
            } else {
                ph
            }
        },
        PhaseModel::Forming { peak1, trough, peak2 } => {
            if peak2 is None && low < trough {
                PhaseModel::Forming { peak1, trough: low, peak2 }
            } else {
                ph
            }
        },
        _ => ph,
    }
}

/// All conditions of the early warning: pattern height, distance to the
/// first peak, the uptrend lookback, and the high still under the fail
/// level.
pub open spec fn spec_early_warning_fires(
    peak1: PeakRec,
    trough: int,
    cfg: DoubleTopConfig,
    closes: Seq<int>,
    high: int,
    close: int,
) -> bool {
    &&& spec_height_reached(peak1.price, trough, cfg.min_pattern_height_bp as int)
    &&& spec_within_approach(peak1.price, close, cfg.approach_threshold_bp as int)
    &&& spec_uptrend_ok(closes, cfg.trend_lookback as int, close)
    &&& !spec_exceeds_fail_level(high, peak1.price, cfg.peak_fail_bp as int)
}

/// All conditions of the confirmation: a second peak matching the first,
/// pattern height, and a close below the buffered neckline.
pub open spec fn spec_confirmation_fires(
    peak1: PeakRec,
    trough: int,
    peak2: Option<PeakRec>,
    cfg: DoubleTopConfig,
    close: int,
    atr: int,
) -> bool {
    match peak2 {
        Some(p2) => {
            &&& spec_peaks_match(peak1.price, p2.price, cfg.peak_tolerance_bp as int)
            &&& spec_height_reached(peak1.price, trough, cfg.min_pattern_height_bp as int)
            &&& spec_broke_neckline(close, trough, cfg.breakdown_buffer_bp as int, atr)
        },
        None => false,
    }
}

/// An alert, without the instrument tag.
pub enum AlertKind {
    Warning { peak_price: int, current_price: int },
    Confirm { neckline: int, break_price: int },
}

/// The per-candle checks that run after swing-point handling, against the
/// updated tracking data: invalidation first, then neckline tightening,
/// then the early warning or the confirmation.
pub open spec fn spec_transitions(
    ph: PhaseModel,
    cfg: DoubleTopConfig,
    count: int,
    closes: Seq<int>,
    high: int,
    low: int,
    close: int,
    atr: int,
) -> (PhaseModel, Option<AlertKind>) {
    if spec_invalidation(ph, cfg, count, high) {
        (PhaseModel::Invalidated, None)
    } else {
        let ph1 = spec_tighten_neckline(ph, low);
        match ph1 {
            PhaseModel::TroughFound { peak1, trough, peak2 } => {
                if spec_early_warning_fires(peak1, trough, cfg, closes, high, close) {
                    (
                        PhaseModel::Forming { peak1, trough, peak2 },
                        Some(AlertKind::Warning { peak_price: peak1.price, current_price: close }),
                    )
                } else {
                    (ph1, None)
                }
            },
            PhaseModel::Forming { peak1, trough, peak2 } => {
                if spec_confirmation_fires(peak1, trough, peak2, cfg, close, atr) {
                    (
                        PhaseModel::Confirmed { peak1, trough, peak2: peak2.unwrap() },
                        Some(AlertKind::Confirm { neckline: trough, break_price: close }),
                    )
                } else {
                    (ph1, None)
                }
            },
            _ => (ph1, None),
        }
    }
}

/// The bounded FIFO window of closes after a new close arrives.
pub open spec fn spec_window_push(closes: Seq<int>, close: int, window: int) -> Seq<int> {
    let pushed = closes.push(close);
    if pushed.len() > window {
        pushed.subrange(1, pushed.len() as int)
    } else {
        pushed
    }
}

/// Mathematical state of one detector.
pub struct DetectorModel {
    /// The configuration the detector was built with.
    pub config: DoubleTopConfig,
    /// Tracking data of the pattern state machine.
    pub phase: PhaseModel,
    /// Candles observed so far.
    pub candle_count: int,
    /// Rolling window of closes, bounded by `config.history_window`.
    pub closes: Seq<int>,
    /// All true ranges observed, for the volatility estimate.
    pub trs: Seq<int>,
    /// Close of the last candle observed.
    pub prev_close: Option<int>,
    /// State of the swing detector.
    pub swing: SwingModel,
}

/// One full detector step on a candle: the candle counter and the rolling
/// structures always advance; no transition logic runs before the warmup
/// count is reached or while the volatility estimate is unavailable.
/// Swing-point handling is applied first, against the state as of the
/// start of the candle; the per-candle checks then run against the
/// updated state.
pub open spec fn spec_detector_step(m: DetectorModel, high: int, low: int, close: int) -> (
    DetectorModel,
    Option<AlertKind>,
) {
    let count = m.candle_count + 1;
    let closes = spec_window_push(m.closes, close, m.config.history_window as int);
    let trs = m.trs.push(spec_true_range(m.prev_close, high, low));
    let base = DetectorModel {
        config: m.config,
        phase: m.phase,
        candle_count: count,
        closes: closes,
        trs: trs,
        prev_close: Some(close),
        swing: m.swing,
    };
    if count < m.config.warmup_candles {
        (base, None)
    } else {
        match spec_atr(m.config.atr_period as int, trs) {
            None => (base, None),
            Some(atr) => {
                let sw = spec_swing_step(m.swing, high, low, atr);
                let ph1 = match sw.1 {
                    Some(pt) => spec_handle_swing(m.phase, m.config, count, pt.0, pt.1),
                    None => m.phase,
                };
                let res = spec_transitions(ph1, m.config, count, closes, high, low, close, atr);
                (
                    DetectorModel {
                        config: m.config,
                        phase: res.0,
                        candle_count: count,
                        closes: closes,
                        trs: trs,
                        prev_close: Some(close),
                        swing: sw.0,
                    },
                    res.1,
                )
            },
        }
    }
}

/// The reported state of a phase model.
pub open spec fn phase_state(ph: PhaseModel) -> PatternState {
    match ph {
        PhaseModel::Watching => PatternState::Watching,
        PhaseModel::PeakFound { .. } => PatternState::PeakFound,
        PhaseModel::TroughFound { .. } => PatternState::TroughFound,
        PhaseModel::Forming { .. } => PatternState::Forming,
        PhaseModel::Confirmed { .. } => PatternState::Confirmed,
        PhaseModel::Invalidated => PatternState::Invalidated,
    }
}

/// `Option<u64>` as an optional integer.
pub open spec fn opt_int(r: Option<u64>) -> Option<int> {
    match r {
        Some(v) => Some(v as int),
        None => None,
    }
}

/// The peak tolerance check is symmetric in the two prices.
pub proof fn lemma_peaks_match_symmetric(p1: int, p2: int, tol_bp: int)
    ensures
        spec_peaks_match(p1, p2, tol_bp) == spec_peaks_match(p2, p1, tol_bp),
{
}

// ---------------------------------------------------------------------
// Executable forms of the detection rules. Products are taken in 128-bit
// arithmetic; the basis-point caps of `DoubleTopConfig::valid` keep them
// in range.
// ---------------------------------------------------------------------

fn exec_peaks_match(p1: u64, p2: u64, tol_bp: u64) -> (b: bool)
    requires
        tol_bp <= crate::config::MAX_THRESHOLD_BP,
    ensures
        b == spec_peaks_match(p1 as int, p2 as int, tol_bp as int),
{
    let diff = if p1 >= p2 {
        p1 - p2
    } else {
        p2 - p1
    };
    proof {
        assert((tol_bp as int) * (p1 as int + p2 as int) <= u128::MAX) by (nonlinear_arith)
            requires
                tol_bp <= 1_000_000u64,
                p1 <= u64::MAX,
                p2 <= u64::MAX,
        ;
    }
    diff as u128 * 20000 <= tol_bp as u128 * (p1 as u128 + p2 as u128)
}

fn exec_exceeds_fail_level(high: u64, peak1: u64, fail_bp: u64) -> (b: bool)
    requires
        fail_bp <= crate::config::MAX_THRESHOLD_BP,
    ensures
        b == spec_exceeds_fail_level(high as int, peak1 as int, fail_bp as int),
{
    proof {
        assert((peak1 as int) * (10000 + fail_bp as int) <= u128::MAX) by (nonlinear_arith)
            requires
                fail_bp <= 1_000_000u64,
                peak1 <= u64::MAX,
        ;
    }
    high as u128 * 10000 > peak1 as u128 * (10000 + fail_bp as u128)
}

fn exec_pullback_reached(peak1: u64, price: u64, pullback_bp: u64) -> (b: bool)
    requires
        pullback_bp <= crate::config::MAX_THRESHOLD_BP,
    ensures
        b == spec_pullback_reached(peak1 as int, price as int, pullback_bp as int),
{
    proof {
        assert((pullback_bp as int) * (peak1 as int) <= u128::MAX) by (nonlinear_arith)
            requires
                pullback_bp <= 1_000_000u64,
                peak1 <= u64::MAX,
        ;
    }
    price <= peak1 && (peak1 - price) as u128 * 10000 >= pullback_bp as u128 * peak1 as u128
}

fn exec_height_reached(peak1: u64, trough: u64, height_bp: u64) -> (b: bool)
    requires
        height_bp <= crate::config::MAX_THRESHOLD_BP,
    ensures
        b == spec_height_reached(peak1 as int, trough as int, height_bp as int),
{
    proof {
        assert((height_bp as int) * (peak1 as int) <= u128::MAX) by (nonlinear_arith)
            requires
                height_bp <= 1_000_000u64,
                peak1 <= u64::MAX,
        ;
    }
    trough <= peak1 && (peak1 - trough) as u128 * 10000 >= height_bp as u128 * peak1 as u128
}

fn exec_within_approach(peak1: u64, close: u64, approach_bp: u64) -> (b: bool)
    requires
        approach_bp <= crate::config::MAX_THRESHOLD_BP,
    ensures
        b == spec_within_approach(peak1 as int, close as int, approach_bp as int),
{
    let diff = if peak1 >= close {
        peak1 - close
    } else {
        close - peak1
    };
    proof {
        assert((approach_bp as int) * (peak1 as int) <= u128::MAX) by (nonlinear_arith)
            requires
                approach_bp <= 1_000_000u64,
                peak1 <= u64::MAX,
        ;
    }
    diff as u128 * 10000 <= approach_bp as u128 * peak1 as u128
}

fn exec_broke_neckline(close: u64, trough: u64, buffer_bp: u64, atr: u64) -> (b: bool)
    requires
        buffer_bp <= crate::config::MAX_THRESHOLD_BP,
    ensures
        b == spec_broke_neckline(close as int, trough as int, buffer_bp as int, atr as int),
{
    proof {
        assert((buffer_bp as int) * (atr as int) + (close as int) * 10000 <= u128::MAX)
            by (nonlinear_arith)
            requires
                buffer_bp <= 1_000_000u64,
                atr <= u64::MAX,
                close <= u64::MAX,
        ;
    }
    (close as u128 * 10000 + buffer_bp as u128 * atr as u128) < (trough as u128 * 10000)
}

/// The starting state of a detector built on `config`.
pub open spec fn fresh_model(config: DoubleTopConfig) -> DetectorModel {
    DetectorModel {
        config: config,
        phase: PhaseModel::Watching,
        candle_count: 0,
        closes: Seq::empty(),
        trs: Seq::empty(),
        prev_close: None,
        swing: SwingModel {
            rev_bp: config.rev_atr_bp as int,
            trend: None,
            swing_high: 0,
            swing_low: u64::MAX as int,
        },
    }
}

/// What always holds of a detector's model: the configuration is valid,
/// and while a pattern instance is tracked the warmup is over, the
/// volatility estimate is available, and the first peak lies in the past.
pub open spec fn model_wf(m: DetectorModel) -> bool {
    &&& m.config.valid()
    &&& m.candle_count >= 0
    &&& match tracked_peak1(m.phase) {
        Some(p1) => {
            &&& m.candle_count >= m.config.warmup_candles
            &&& spec_atr(m.config.atr_period as int, m.trs) is Some
            &&& 0 <= p1.idx <= m.candle_count
        },
        None => true,
    }
}

/// Double top detector for a single instrument.
pub struct DoubleTopDetector {
    coin: String,
    config: DoubleTopConfig,
    atr: AtrCalculator,
    swing: SwingDetector,
    closes: Vec<u64>,
    candle_count: usize,
    phase: PatternPhase,
}

impl DoubleTopDetector {
    /// The instrument this detector watches.
    pub closed spec fn coin_view(self) -> Seq<char> {
        self.coin@
    }

    /// Mathematical state of the detector.
    pub closed spec fn model(self) -> DetectorModel {
        DetectorModel {
            config: self.config,
            phase: self.phase.model(),
            candle_count: self.candle_count as int,
            closes: self.closes@.map_values(|c: u64| c as int),
            trs: self.atr.history(),
            prev_close: self.atr.prev_close(),
            swing: self.swing@,
        }
    }

    /// Internal consistency: the components agree with the configuration
    /// and the model is well formed.
    pub closed spec fn wf(self) -> bool {
        &&& self.atr.wf()
        &&& self.atr.period() == self.config.atr_period as int
        &&& self.swing@.rev_bp == self.config.rev_atr_bp as int
        &&& self.closes@.len() <= self.config.history_window
        &&& model_wf(self.model())
    }

    /// Builds a detector, rejecting invalid configuration outright.
    pub fn new(coin: String, config: DoubleTopConfig) -> (r: Result<Self, ConfigError>)
        ensures
            config.valid() ==> match r {
                Ok(d) => d.wf() && d.coin_view() == coin@ && d.model() == fresh_model(config),
                Err(_) => false,
            },
            !config.valid() ==> r == Err::<Self, ConfigError>(
                if config.atr_period < 1 {
                    ConfigError::ZeroAtrPeriod
                } else {
                    ConfigError::ThresholdTooLarge
                },
            ),
    {
        if config.atr_period < 1 {
            return Err(ConfigError::ZeroAtrPeriod);
        }
        if !config.is_valid() {
            return Err(ConfigError::ThresholdTooLarge);
        }
        let atr = AtrCalculator::new(config.atr_period);
        let swing = SwingDetector::new(config.rev_atr_bp);
        let d = DoubleTopDetector {
            coin,
            config,
            atr,
            swing,
            closes: Vec::new(),
            candle_count: 0,
            phase: PatternPhase::Watching,
        };
        proof {
            assert(d.model().closes =~= Seq::<int>::empty());
            assert(d.model() == fresh_model(config));
        }
        Ok(d)
    }

    /// Applies a confirmed swing point to the tracking data, exactly as
    /// `spec_handle_swing` says.
    fn handle_swing_point(&mut self, point: &SwingPoint)
        requires
            old(self).wf(),
            old(self).model().candle_count >= old(self).model().config.warmup_candles,
            spec_atr(old(self).model().config.atr_period as int, old(self).model().trs) is Some,
        ensures
            final(self).wf(),
            final(self).coin_view() == old(self).coin_view(),
            final(self).model() == (DetectorModel {
                phase: spec_handle_swing(
                    old(self).model().phase,
                    old(self).model().config,
                    old(self).model().candle_count,
                    point.price as int,
                    point.is_peak,
                ),
                ..old(self).model()
            }),
    {
        match self.phase {
            PatternPhase::Watching => {
                if point.is_peak {
                    self.phase = PatternPhase::PeakFound {
                        peak1: PeakInfo { price: point.price, candle_idx: self.candle_count },
                    };
                }
            },
            PatternPhase::PeakFound { peak1 } => {
                if !point.is_peak && exec_pullback_reached(
                    peak1.price,
                    point.price,
                    self.config.min_pullback_bp,
                ) {
                    self.phase = PatternPhase::TroughFound {
                        peak1,
                        trough: point.price,
                        peak2: None,
                    };
                }
            },
            PatternPhase::TroughFound { peak1, trough, peak2 } => {
                if !point.is_peak {
                    if exec_pullback_reached(peak1.price, point.price, self.config.min_pullback_bp)
                        && point.price < trough {
                        self.phase = PatternPhase::TroughFound {
                            peak1,
                            trough: point.price,
                            peak2,
                        };
                    }
                } else {
                    if exec_peaks_match(peak1.price, point.price, self.config.peak_tolerance_bp) {
                        self.phase = PatternPhase::TroughFound {
                            peak1,
                            trough,
                            peak2: Some(
                                PeakInfo { price: point.price, candle_idx: self.candle_count },
                            ),
                        };
                    }
                }
            },
            PatternPhase::Forming { peak1, trough, peak2 } => {
                if !point.is_peak {
                    if exec_pullback_reached(peak1.price, point.price, self.config.min_pullback_bp)
                        && point.price < trough {
                        self.phase = PatternPhase::Forming { peak1, trough: point.price, peak2 };
                    }
                } else {
                    if exec_peaks_match(peak1.price, point.price, self.config.peak_tolerance_bp) {
                        self.phase = PatternPhase::Forming {
                            peak1,
                            trough,
                            peak2: Some(
                                PeakInfo { price: point.price, candle_idx: self.candle_count },
                            ),
                        };
                    }
                }
            },
            PatternPhase::Confirmed { .. } => {
                if point.is_peak {
                    self.phase = PatternPhase::PeakFound {
                        peak1: PeakInfo { price: point.price, candle_idx: self.candle_count },
                    };
                }
            },
            PatternPhase::Invalidated => {
                if point.is_peak {
                    self.phase = PatternPhase::PeakFound {
                        peak1: PeakInfo { price: point.price, candle_idx: self.candle_count },
                    };
                }
            },
        }
    }

    /// All early-warning conditions, exactly as `spec_early_warning_fires`.
    fn early_warning_fires(&self, peak1: PeakInfo, trough: u64, candle: &Candle) -> (b: bool)
        requires
            self.config.valid(),
        ensures
            b == spec_early_warning_fires(
                peak1.model(),
                trough as int,
                self.config,
                self.model().closes,
                candle.high as int,
                candle.close as int,
            ),
    {
        if !exec_height_reached(peak1.price, trough, self.config.min_pattern_height_bp) {
            return false;
        }
        if !exec_within_approach(peak1.price, candle.close, self.config.approach_threshold_bp) {
            return false;
        }
        if self.closes.len() > self.config.trend_lookback {
            let idx = self.closes.len() - self.config.trend_lookback - 1;
            let prev = self.closes[idx];
            if candle.close <= prev {
                return false;
            }
        }
        !exec_exceeds_fail_level(candle.high, peak1.price, self.config.peak_fail_bp)
    }

    /// Runs the per-candle checks against the current tracking data,
    /// exactly as `spec_transitions` says: invalidation first, then
    /// neckline tightening, then the early warning or the confirmation.
    /// An alert is tagged with this detector's instrument.
    fn check_state_transitions(&mut self, candle: &Candle, atr: u64) -> (r: Option<Alert>)
        requires
            old(self).wf(),
        ensures
            final(self).wf(),
            final(self).coin_view() == old(self).coin_view(),
            final(self).model() == (DetectorModel {
                phase: spec_transitions(
                    old(self).model().phase,
                    old(self).model().config,
                    old(self).model().candle_count,
                    old(self).model().closes,
                    candle.high as int,
                    candle.low as int,
                    candle.close as int,
                    atr as int,
                ).0,
                ..old(self).model()
            }),
            spec_alert_matches(
                r,
                old(self).coin_view(),
                spec_transitions(
                    old(self).model().phase,
                    old(self).model().config,
                    old(self).model().candle_count,
                    old(self).model().closes,
                    candle.high as int,
                    candle.low as int,
                    candle.close as int,
                    atr as int,
                ).1,
            ),
    {
        let active_peak1: Option<PeakInfo> = match self.phase {
            PatternPhase::PeakFound { peak1 } => Some(peak1),
            PatternPhase::TroughFound { peak1, .. } => Some(peak1),
            PatternPhase::Forming { peak1, .. } => Some(peak1),
            _ => None,
        };
        if let Some(peak1) = active_peak1 {
            if exec_exceeds_fail_level(candle.high, peak1.price, self.config.peak_fail_bp) {
                self.phase = PatternPhase::Invalidated;
                return None;
            }
            if self.candle_count - peak1.candle_idx > self.config.max_peak_distance {
                self.phase = PatternPhase::Invalidated;
                return None;
            }
        }
        match self.phase {
            PatternPhase::TroughFound { peak1, trough, peak2 } => {
                if peak2.is_none() && candle.low < trough {
                    self.phase = PatternPhase::TroughFound { peak1, trough: candle.low, peak2 };
                }
            },
            PatternPhase::Forming { peak1, trough, peak2 } => {
                if peak2.is_none() && candle.low < trough {
                    self.phase = PatternPhase::Forming { peak1, trough: candle.low, peak2 };
                }
            },
            _ => {},
        }
        match self.phase {
            PatternPhase::TroughFound { peak1, trough, peak2 } => {
                if self.early_warning_fires(peak1, trough, candle) {
                    self.phase = PatternPhase::Forming { peak1, trough, peak2 };
                    Some(
                        Alert::EarlyWarning {
                            coin: self.coin.clone(),
                            peak_price: peak1.price,
                            current_price: candle.close,
                        },
                    )
                } else {
                    None
                }
            },
            PatternPhase::Forming { peak1, trough, peak2 } => {
                match peak2 {
                    Some(p2) => {
                        if exec_peaks_match(peak1.price, p2.price, self.config.peak_tolerance_bp)
                            && exec_height_reached(
                            peak1.price,
                            trough,
                            self.config.min_pattern_height_bp,
                        ) && exec_broke_neckline(
                            candle.close,
                            trough,
                            self.config.breakdown_buffer_bp,
                            atr,
                        ) {
                            self.phase = PatternPhase::Confirmed { peak1, trough, peak2: p2 };
                            Some(
                                Alert::Confirmation {
                                    coin: self.coin.clone(),
                                    neckline_price: trough,
                                    break_price: candle.close,
                                },
                            )
                        } else {
                            None
                        }
                    },
                    None => None,
                }
            },
            _ => None,
        }
    }

    /// Feeds one closed candle through the detector, exactly as
    /// `spec_detector_step` says, and returns the alert it raises, if any.
    pub fn process_candle(&mut self, candle: &Candle) -> (r: Option<Alert>)
        requires
            old(self).wf(),
            candle.valid(),
            old(self).model().candle_count < usize::MAX,
        ensures
            final(self).wf(),
            final(self).coin_view() == old(self).coin_view(),
            final(self).model() == spec_detector_step(
                old(self).model(),
                candle.high as int,
                candle.low as int,
                candle.close as int,
            ).0,
            spec_alert_matches(
                r,
                old(self).coin_view(),
                spec_detector_step(
                    old(self).model(),
                    candle.high as int,
                    candle.low as int,
                    candle.close as int,
                ).1,
            ),
    {
        self.candle_count = self.candle_count + 1;
        self.closes.push(candle.close);
        if self.closes.len() > self.config.history_window {
            self.closes.remove(0);
        }
        proof {
            assert(self.closes@.map_values(|c: u64| c as int) =~= spec_window_push(
                old(self).model().closes,
                candle.close as int,
                self.config.history_window as int,
            ));
        }
        let atr_opt = self.atr.update(candle);
        proof {
            if is_tracking(self.model().phase) {
                crate::indicators::lemma_atr_stays_available(
                    self.config.atr_period as int,
                    old(self).model().trs,
                    spec_true_range(
                        old(self).model().prev_close,
                        candle.high as int,
                        candle.low as int,
                    ),
                );
            }
        }
        if self.candle_count < self.config.warmup_candles {
            return None;
        }
        let atr = match atr_opt {
            Some(a) => a,
            None => {
                return None;
            },
        };
        let swing_point = self.swing.update(candle, atr);
        match swing_point {
            Some(point) => {
                self.handle_swing_point(&point);
            },
            None => {},
        }
        self.check_state_transitions(candle, atr)
    }

    /// Current pattern state.
    pub fn state(&self) -> (r: PatternState)
        ensures
            r == phase_state(self.model().phase),
    {
        match self.phase {
            PatternPhase::Watching => PatternState::Watching,
            PatternPhase::PeakFound { .. } => PatternState::PeakFound,
            PatternPhase::TroughFound { .. } => PatternState::TroughFound,
            PatternPhase::Forming { .. } => PatternState::Forming,
            PatternPhase::Confirmed { .. } => PatternState::Confirmed,
            PatternPhase::Invalidated => PatternState::Invalidated,
        }
    }

    /// The detector has observed its warmup count of candles.
    pub fn is_warmed_up(&self) -> (r: bool)
        ensures
            r == (self.model().candle_count >= self.model().config.warmup_candles),
    {
        self.candle_count >= self.config.warmup_candles
    }

    /// Price of the first tracked peak, if one is recorded.
    pub fn peak1_price(&self) -> (r: Option<u64>)
        ensures
            opt_int(r) == spec_peak1_price(self.model().phase),
    {
        match self.phase {
            PatternPhase::Watching => None,
            PatternPhase::PeakFound { peak1 } => Some(peak1.price),
            PatternPhase::TroughFound { peak1, .. } => Some(peak1.price),
            PatternPhase::Forming { peak1, .. } => Some(peak1.price),
            PatternPhase::Confirmed { peak1, .. } => Some(peak1.price),
            PatternPhase::Invalidated => None,
        }
    }

    /// Price of the tracked trough (the neckline), if one is recorded.
    pub fn neckline_price(&self) -> (r: Option<u64>)
        ensures
            opt_int(r) == spec_neckline_price(self.model().phase),
    {
        match self.phase {
            PatternPhase::TroughFound { trough, .. } => Some(trough),
            PatternPhase::Forming { trough, .. } => Some(trough),
            PatternPhase::Confirmed { trough, .. } => Some(trough),
            _ => None,
        }
    }

    /// Price of the second peak, if one is recorded.
    pub fn peak2_price(&self) -> (r: Option<u64>)
        ensures
            opt_int(r) == spec_peak2_price(self.model().phase),
    {
        match self.phase {
            PatternPhase::TroughFound { peak2: Some(p2), .. } => Some(p2.price),
            PatternPhase::Forming { peak2: Some(p2), .. } => Some(p2.price),
            PatternPhase::Confirmed { peak2, .. } => Some(peak2.price),
            _ => None,
        }
    }
}

/// The first peak price reported for a phase.
pub open spec fn spec_peak1_price(ph: PhaseModel) -> Option<int> {
    match ph {
        PhaseModel::Watching => None,
        PhaseModel::PeakFound { peak1 } => Some(peak1.price),
        PhaseModel::TroughFound { peak1, .. } => Some(peak1.price),
        PhaseModel::Forming { peak1, .. } => Some(peak1.price),
        PhaseModel::Confirmed { peak1, .. } => Some(peak1.price),
        PhaseModel::Invalidated => None,
    }
}

/// The neckline price reported for a phase.
pub open spec fn spec_neckline_price(ph: PhaseModel) -> Option<int> {
    match ph {
        PhaseModel::TroughFound { trough, .. } => Some(trough),
        PhaseModel::Forming { trough, .. } => Some(trough),
        PhaseModel::Confirmed { trough, .. } => Some(trough),
        _ => None,
    }
}

/// The second peak price reported for a phase.
pub open spec fn spec_peak2_price(ph: PhaseModel) -> Option<int> {
    match ph {
        PhaseModel::TroughFound { peak2: Some(p2), .. } => Some(p2.price),
        PhaseModel::Forming { peak2: Some(p2), .. } => Some(p2.price),
        PhaseModel::Confirmed { peak2, .. } => Some(peak2.price),
        _ => None,
    }
}

// ---------------------------------------------------------------------
// Laws of the state machine.
// ---------------------------------------------------------------------

/// While a pattern instance is tracked, processing a candle whose
/// high exceeds the fail level of the first peak drives the detector to
/// `Invalidated`, regardless of anything else the candle does.
pub proof fn lemma_fail_level_invalidates(m: DetectorModel, high: int, low: int, close: int)
    requires
        model_wf(m),
        is_tracking(m.phase),
        spec_exceeds_fail_level(
            high,
            tracked_peak1(m.phase).unwrap().price,
            m.config.peak_fail_bp as int,
        ),
    ensures
        spec_detector_step(m, high, low, close).0.phase is Invalidated,
{
    let trs = m.trs.push(spec_true_range(m.prev_close, high, low));
    crate::indicators::lemma_atr_stays_available(
        m.config.atr_period as int,
        m.trs,
        spec_true_range(m.prev_close, high, low),
    );
    let atr = spec_atr(m.config.atr_period as int, trs).unwrap();
    let sw = spec_swing_step(m.swing, high, low, atr);
    let count = m.candle_count + 1;
    let ph1 = match sw.1 {
        Some(pt) => spec_handle_swing(m.phase, m.config, count, pt.0, pt.1),
        None => m.phase,
    };
    // swing handling never changes the first peak of a tracked phase
    assert(tracked_peak1(ph1) == tracked_peak1(m.phase));
    assert(spec_invalidation(ph1, m.config, count, high));
}

/// The tracked trough only ever decreases in place: wherever a step
/// carries a neckline from one phase to the next, the new neckline is no
/// higher. Only a reset through a fresh first peak discards it.
pub proof fn lemma_neckline_never_raised(m: DetectorModel, high: int, low: int, close: int)
    ensures
        match (
            spec_neckline_price(m.phase),
            spec_neckline_price(spec_detector_step(m, high, low, close).0.phase),
        ) {
            (Some(t0), Some(t1)) => t1 <= t0,
            _ => true,
        },
{
}

/// An early warning is emitted only on the transition
/// into `Forming`, out of a state that still awaits it.
pub proof fn lemma_warning_enters_forming(m: DetectorModel, high: int, low: int, close: int)
    requires
        spec_detector_step(m, high, low, close).1 matches Some(AlertKind::Warning { .. }),
    ensures
        spec_detector_step(m, high, low, close).0.phase is Forming,
        m.phase is PeakFound || m.phase is TroughFound,
{
}

/// A step that starts from a settled phase — one with no
/// pattern instance still waiting for its early warning — ends in a
/// settled phase or records a fresh first peak; it never reaches
/// `TroughFound` directly, and it never warns.
pub proof fn lemma_settled_step(m: DetectorModel, high: int, low: int, close: int)
    requires
        m.phase is Watching || m.phase is Forming || m.phase is Confirmed || m.phase
            is Invalidated,
    ensures
        ({
            let p = spec_detector_step(m, high, low, close).0.phase;
            p is Watching || p is Forming || p is Confirmed || p is Invalidated || p is PeakFound
        }),
        !(spec_detector_step(m, high, low, close).1 matches Some(AlertKind::Warning { .. })),
{
}

/// The detector's model after stepping through `candles`, a sequence of
/// `(high, low, close)` triples.
pub open spec fn spec_detector_run(m: DetectorModel, candles: Seq<(int, int, int)>) -> DetectorModel
    decreases candles.len(),
{
    if candles.len() == 0 {
        m
    } else {
        let prior = spec_detector_run(m, candles.drop_last());
        spec_detector_step(prior, candles.last().0, candles.last().1, candles.last().2).0
    }
}

/// The alert emitted by step `t` of a run.
pub open spec fn spec_alert_at(
    m: DetectorModel,
    candles: Seq<(int, int, int)>,
    t: int,
) -> Option<AlertKind> {
    spec_detector_step(
        spec_detector_run(m, candles.take(t)),
        candles[t].0,
        candles[t].1,
        candles[t].2,
    ).1
}

/// The tracking data after step `t` of a run.
pub open spec fn spec_phase_after(m: DetectorModel, candles: Seq<(int, int, int)>, t: int) -> PhaseModel {
    spec_detector_run(m, candles.take(t + 1)).phase
}

proof fn lemma_run_unfold(m: DetectorModel, candles: Seq<(int, int, int)>, t: int)
    requires
        0 <= t < candles.len(),
    ensures
        spec_detector_run(m, candles.take(t + 1)) == spec_detector_step(
            spec_detector_run(m, candles.take(t)),
            candles[t].0,
            candles[t].1,
            candles[t].2,
        ).0,
{
    let pre = candles.take(t + 1);
    assert(pre.drop_last() == candles.take(t));
    assert(pre.last() == candles[t]);
}

proof fn lemma_no_warning_until_peak(
    m: DetectorModel,
    candles: Seq<(int, int, int)>,
    t1: int,
    t2: int,
)
    requires
        0 <= t1 < t2 < candles.len(),
        ({
            let p = spec_phase_after(m, candles, t1);
            p is Watching || p is Forming || p is Confirmed || p is Invalidated
        }),
        spec_alert_at(m, candles, t2) matches Some(AlertKind::Warning { .. }),
    ensures
        exists|k: int|
            t1 < k <= t2 && #[trigger] spec_phase_after(m, candles, k) is PeakFound,
    decreases t2 - t1,
{
    let pre = spec_detector_run(m, candles.take(t1 + 1));
    lemma_run_unfold(m, candles, t1 + 1);
    lemma_settled_step(pre, candles[t1 + 1].0, candles[t1 + 1].1, candles[t1 + 1].2);
    if spec_phase_after(m, candles, t1 + 1) is PeakFound {
        assert(spec_phase_after(m, candles, t1 + 1) is PeakFound);
    } else {
        if t1 + 1 == t2 {
            // a warning out of a settled phase is impossible
            lemma_warning_enters_forming(pre, candles[t2].0, candles[t2].1, candles[t2].2);
            assert(false);
        } else {
            lemma_no_warning_until_peak(m, candles, t1 + 1, t2);
            let k = choose|k: int|
                t1 + 1 < k <= t2 && #[trigger] spec_phase_after(m, candles, k) is PeakFound;
            assert(t1 < k <= t2 && spec_phase_after(m, candles, k) is PeakFound);
        }
    }
}

/// Over whole runs: the early warning fires at most once per pattern
/// instance. Between any two steps that warn lies a step that records a
/// fresh first peak — only a new `peak1` re-arms the warning.
pub proof fn lemma_early_warning_once(
    m: DetectorModel,
    candles: Seq<(int, int, int)>,
    i: int,
    j: int,
)
    requires
        0 <= i < j < candles.len(),
        spec_alert_at(m, candles, i) matches Some(AlertKind::Warning { .. }),
        spec_alert_at(m, candles, j) matches Some(AlertKind::Warning { .. }),
    ensures
        exists|k: int|
            i < k <= j && #[trigger] spec_phase_after(m, candles, k) is PeakFound,
{
    let pre = spec_detector_run(m, candles.take(i));
    lemma_run_unfold(m, candles, i);
    lemma_warning_enters_forming(pre, candles[i].0, candles[i].1, candles[i].2);
    lemma_no_warning_until_peak(m, candles, i, j);
}

/// The executable alert `r` carries the instrument `coin` and matches the
/// model alert `k`.
pub open spec fn spec_alert_matches(r: Option<Alert>, coin: Seq<char>, k: Option<AlertKind>) -> bool {
    match r {
        None => k is None,
        Some(a) => match a {
            Alert::EarlyWarning { coin: c, peak_price, current_price } => c@ == coin && k == Some(
                AlertKind::Warning {
                    peak_price: peak_price as int,
                    current_price: current_price as int,
                },
            ),
            Alert::Confirmation { coin: c, neckline_price, break_price } => c@ == coin && k
                == Some(
                AlertKind::Confirm {
                    neckline: neckline_price as int,
                    break_price: break_price as int,
                },
            ),
        },
    }
}

} // verus!
