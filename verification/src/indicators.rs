use vstd::arithmetic::div_mod::{lemma_div_is_ordered, lemma_div_multiples_vanish};
use vstd::prelude::*;

use crate::candle::Candle;

verus! {

/// Larger of two integers.
pub open spec fn max_int(a: int, b: int) -> int {
    if a >= b {
        a
    } else {
        b
    }
}

/// Smaller of two integers.
pub open spec fn min_int(a: int, b: int) -> int {
    if a <= b {
        a
    } else {
        b
    }
}

/// Distance between two integers.
pub open spec fn abs_diff_int(a: int, b: int) -> int {
    if a >= b {
        a - b
    } else {
        b - a
    }
}

/// True range of a candle: the high/low span, widened by the gap against
/// the previous close once one exists.
pub open spec fn spec_true_range(prev_close: Option<int>, high: int, low: int) -> int {
    match prev_close {
        None => high - low,
        Some(pc) => max_int(high - low, max_int(abs_diff_int(high, pc), abs_diff_int(low, pc))),
    }
}

/// Sum of a sequence of integers.
pub open spec fn sum_seq(s: Seq<int>) -> int
    decreases s.len(),
{
    if s.len() == 0 {
        0
    } else {
        sum_seq(s.drop_last()) + s.last()
    }
}

/// The volatility estimate after observing the true ranges `trs`: nothing
/// until `period` ranges have been seen; the mean of the first `period`
/// ranges once they have; after that the Wilder-smoothed update
/// `(previous * (period - 1) + range) / period`.
pub open spec fn spec_atr(period: int, trs: Seq<int>) -> Option<int>
    decreases trs.len(),
{
    if period < 1 || trs.len() < period {
        None
    } else if trs.len() == period {
        Some(sum_seq(trs) / period)
    } else {
        match spec_atr(period, trs.drop_last()) {
            Some(prev) => Some((prev * (period - 1) + trs.last()) / period),
            None => None,
        }
    }
}

/// Every element of `s` lies in `[0, m]`.
pub open spec fn all_in_range(s: Seq<int>, m: int) -> bool {
    forall|i: int| 0 <= i < s.len() ==> 0 <= #[trigger] s[i] <= m
}

proof fn lemma_sum_seq_bound(s: Seq<int>, m: int)
    requires
        m >= 0,
        all_in_range(s, m),
    ensures
        0 <= sum_seq(s) <= s.len() * m,
    decreases s.len(),
{
    if s.len() == 0 {
    } else {
        assert(all_in_range(s.drop_last(), m));
        lemma_sum_seq_bound(s.drop_last(), m);
        assert((s.len() - 1) * m + m == s.len() * m) by (nonlinear_arith);
    }
}

/// A quotient of a value bounded by `period * m` is bounded by `m`.
proof fn lemma_mean_bound(total: int, period: int, m: int)
    requires
        period >= 1,
        m >= 0,
        0 <= total <= period * m,
    ensures
        0 <= total / period <= m,
{
    lemma_div_is_ordered(total, period * m, period);
    lemma_div_multiples_vanish(m, period);
    vstd::arithmetic::div_mod::lemma_div_pos_is_pos(total, period);
}

/// The estimate stays in `[0, m]` whenever every observed range lies in
/// `[0, m]`.
proof fn lemma_spec_atr_in_range(period: int, trs: Seq<int>, m: int)
    requires
        period >= 1,
        m >= 0,
        all_in_range(trs, m),
    ensures
        trs.len() >= period ==> spec_atr(period, trs) is Some,
        match spec_atr(period, trs) {
            Some(v) => 0 <= v <= m,
            None => true,
        },
    decreases trs.len(),
{
    if trs.len() < period {
    } else if trs.len() == period {
        lemma_sum_seq_bound(trs, m);
        lemma_mean_bound(sum_seq(trs), period, m);
    } else {
        assert(all_in_range(trs.drop_last(), m));
        lemma_spec_atr_in_range(period, trs.drop_last(), m);
        let prev = spec_atr(period, trs.drop_last()).unwrap();
        let tr = trs.last();
        assert(0 <= tr <= m);
        assert(prev * (period - 1) + tr <= period * m) by (nonlinear_arith)
            requires
                0 <= prev <= m,
                0 <= tr <= m,
                period >= 1,
        ;
        lemma_mean_bound(prev * (period - 1) + tr, period, m);
    }
}

/// Stated over the estimator's defining function: nothing is returned
/// before `period` true ranges have been observed, and the first value
/// returned is the mean of the first `period` true ranges.
pub proof fn lemma_estimator_initial_value(period: int, trs: Seq<int>)
    requires
        period >= 1,
    ensures
        trs.len() < period ==> spec_atr(period, trs) is None,
        trs.len() == period ==> spec_atr(period, trs) == Some(sum_seq(trs) / period),
{
}

/// Once the estimator has produced a value it keeps producing one.
pub proof fn lemma_atr_stays_available(period: int, trs: Seq<int>, tr: int)
    requires
        period >= 1,
        spec_atr(period, trs) is Some,
    ensures
        spec_atr(period, trs.push(tr)) is Some,
{
    let pushed = trs.push(tr);
    assert(pushed.drop_last() == trs);
    assert(pushed.last() == tr);
}

/// Smoothed true-range volatility estimator over a fixed window.
pub struct AtrCalculator {
    period: usize,
    prev_close: Option<u64>,
    warmup_sum: u128,
    warmup_count: usize,
    value: Option<u64>,
    trs: Ghost<Seq<int>>,
}

impl AtrCalculator {
    /// Window length of the estimator.
    pub closed spec fn period(self) -> int {
        self.period as int
    }

    /// Every true range observed so far, oldest first.
    pub closed spec fn history(self) -> Seq<int> {
        self.trs@
    }

    /// The close of the last candle observed, if any.
    pub closed spec fn prev_close(self) -> Option<int> {
        match self.prev_close {
            Some(c) => Some(c as int),
            None => None,
        }
    }

    /// The current estimate, as defined by `spec_atr`.
    pub open spec fn estimate(self) -> Option<int> {
        spec_atr(self.period(), self.history())
    }

    /// Internal consistency of the estimator state.
    pub closed spec fn wf(self) -> bool {
        &&& self.period >= 1
        &&& all_in_range(self.trs@, u64::MAX as int)
        &&& (self.prev_close is Some <==> self.trs@.len() > 0)
        &&& self.warmup_count == min_int(self.trs@.len() as int, self.period as int)
        &&& (self.trs@.len() < self.period ==> self.warmup_sum == sum_seq(self.trs@)
            && self.value is None)
        &&& (self.trs@.len() >= self.period ==> match self.value {
            Some(v) => spec_atr(self.period as int, self.trs@) == Some(v as int),
            None => false,
        })
    }

    pub fn new(period: usize) -> (r: Self)
        requires
            period >= 1,
        ensures
            r.wf(),
            r.period() == period,
            r.history() == Seq::<int>::empty(),
            r.prev_close() is None,
    {
        AtrCalculator {
            period,
            prev_close: None,
            warmup_sum: 0,
            warmup_count: 0,
            value: None,
            trs: Ghost(Seq::empty()),
        }
    }

    /// True range of `candle` against the previously observed close.
    fn true_range(&self, candle: &Candle) -> (r: u64)
        requires
            candle.valid(),
        ensures
            r == spec_true_range(self.prev_close(), candle.high as int, candle.low as int),
    {
        let hl = candle.high - candle.low;
        match self.prev_close {
            Some(pc) => {
                let hpc = if candle.high >= pc {
                    candle.high - pc
                } else {
                    pc - candle.high
                };
                let lpc = if candle.low >= pc {
                    candle.low - pc
                } else {
                    pc - candle.low
                };
                let mut r = hl;
                if hpc > r {
                    r = hpc;
                }
                if lpc > r {
                    r = lpc;
                }
                r
            },
            None => hl,
        }
    }

    /// Feeds one candle and returns the estimate, once available.
    pub fn update(&mut self, candle: &Candle) -> (r: Option<u64>)
        requires
            old(self).wf(),
            candle.valid(),
        ensures
            final(self).wf(),
            final(self).period() == old(self).period(),
            final(self).history() == old(self).history().push(
                spec_true_range(old(self).prev_close(), candle.high as int, candle.low as int),
            ),
            final(self).prev_close() == Some(candle.close as int),
            final(self).estimate() == match r {
                Some(v) => Some(v as int),
                None => None::<int>,
            },
    {
        let tr = self.true_range(candle);
        self.prev_close = Some(candle.close);
        let ghost old_trs = self.trs@;
        self.trs = Ghost(self.trs@.push(tr as int));
        proof {
            assert(self.trs@.drop_last() == old_trs);
            assert(self.trs@.last() == tr as int);
        }
        if self.warmup_count < self.period {
            proof {
                lemma_sum_seq_bound(old_trs, u64::MAX as int);
                assert(old_trs.len() * (u64::MAX as int) + u64::MAX
                    < (u128::MAX as int)) by (nonlinear_arith)
                    requires
                        0 <= old_trs.len() < u64::MAX,
                ;
            }
            self.warmup_sum = self.warmup_sum + tr as u128;
            self.warmup_count = self.warmup_count + 1;
            if self.warmup_count == self.period {
                proof {
                    lemma_sum_seq_bound(self.trs@, u64::MAX as int);
                    lemma_mean_bound(sum_seq(self.trs@), self.period as int, u64::MAX as int);
                }
                let v = (self.warmup_sum / self.period as u128) as u64;
                self.value = Some(v);
                Some(v)
            } else {
                None
            }
        } else {
            let prev = self.value.unwrap();
            proof {
                assert((prev as int) * (self.period - 1) + tr <= (self.period as int) * (
                u64::MAX as int) < u128::MAX) by (nonlinear_arith)
                    requires
                        0 <= prev <= u64::MAX,
                        0 <= tr <= u64::MAX,
                        1 <= self.period <= u64::MAX,
                ;
                lemma_mean_bound(
                    (prev as int) * (self.period - 1) + tr,
                    self.period as int,
                    u64::MAX as int,
                );
            }
            let num: u128 = prev as u128 * (self.period - 1) as u128 + tr as u128;
            let v = (num / self.period as u128) as u64;
            self.value = Some(v);
            Some(v)
        }
    }
}

/// Direction the price is currently moving in, as seen by the swing
/// detector.
#[derive(Debug, Clone, Copy, PartialEq, Eq, Structural)]
pub enum Trend {
    Up,
    Down,
}

/// A confirmed local price extreme.
#[derive(Debug, Clone, Copy, PartialEq, Eq, Structural)]
pub struct SwingPoint {
    /// Extreme price, in hundredths.
    pub price: u64,
    /// A peak when true, a trough when false.
    pub is_peak: bool,
}

/// Mathematical state of the swing detector.
pub struct SwingModel {
    /// Reversal threshold, as a multiple of the volatility estimate in
    /// ten-thousandths.
    pub rev_bp: int,
    /// Current trend; nothing before the first candle.
    pub trend: Option<Trend>,
    /// Running swing high.
    pub swing_high: int,
    /// Running swing low.
    pub swing_low: int,
}

/// One step of the swing detector on a candle with the given high and low,
/// under the volatility estimate `atr`. Returns the next state and the
/// confirmed swing point, if this candle confirms one.
///
/// The first candle seeds both extremes and defaults the trend to up,
/// emitting nothing. While trending up the swing high is extended on new
/// highs, and a drop of at least `rev_bp * atr` ten-thousandths from it
/// confirms a peak, flips the trend and re-seeds the swing low; the
/// down-trend rule is symmetric.
pub open spec fn spec_swing_step(m: SwingModel, high: int, low: int, atr: int) -> (SwingModel, Option<
    (int, bool),
>) {
    match m.trend {
        None => (
            SwingModel { trend: Some(Trend::Up), swing_high: high, swing_low: low, rev_bp: m.rev_bp },
            None,
        ),
        Some(Trend::Up) => {
            let h = max_int(m.swing_high, high);
            if (h - low) * 10000 >= m.rev_bp * atr {
                (
                    SwingModel {
                        trend: Some(Trend::Down),
                        swing_high: h,
                        swing_low: low,
                        rev_bp: m.rev_bp,
                    },
                    Some((h, true)),
                )
            } else {
                (
                    SwingModel {
                        trend: Some(Trend::Up),
                        swing_high: h,
                        swing_low: m.swing_low,
                        rev_bp: m.rev_bp,
                    },
                    None,
                )
            }
        },
        Some(Trend::Down) => {
            let l = min_int(m.swing_low, low);
            if (high - l) * 10000 >= m.rev_bp * atr {
                (
                    SwingModel {
                        trend: Some(Trend::Up),
                        swing_high: high,
                        swing_low: l,
                        rev_bp: m.rev_bp,
                    },
                    Some((l, false)),
                )
            } else {
                (
                    SwingModel {
                        trend: Some(Trend::Down),
                        swing_high: m.swing_high,
                        swing_low: l,
                        rev_bp: m.rev_bp,
                    },
                    None,
                )
            }
        },
    }
}

/// Volatility-scaled swing detector: confirms local extrema in real time,
/// without look-ahead.
pub struct SwingDetector {
    rev_atr_bp: u64,
    trend: Option<Trend>,
    swing_high: u64,
    swing_low: u64,
}

impl View for SwingDetector {
    type V = SwingModel;

    closed spec fn view(&self) -> SwingModel {
        SwingModel {
            rev_bp: self.rev_atr_bp as int,
            trend: self.trend,
            swing_high: self.swing_high as int,
            swing_low: self.swing_low as int,
        }
    }
}

impl SwingDetector {
    pub fn new(rev_atr_bp: u64) -> (r: Self)
        ensures
            r@ == (SwingModel {
                rev_bp: rev_atr_bp as int,
                trend: None::<Trend>,
                swing_high: 0,
                swing_low: u64::MAX as int,
            }),
    {
        SwingDetector { rev_atr_bp, trend: None, swing_high: 0, swing_low: u64::MAX }
    }

    /// Feeds one candle and returns a confirmed swing point if this candle
    /// completes a reversal, exactly as `spec_swing_step` says.
    pub fn update(&mut self, candle: &Candle, atr: u64) -> (r: Option<SwingPoint>)
        requires
            candle.valid(),
        ensures
            final(self)@ == spec_swing_step(
                old(self)@,
                candle.high as int,
                candle.low as int,
                atr as int,
            ).0,
            match r {
                Some(p) => spec_swing_step(
                    old(self)@,
                    candle.high as int,
                    candle.low as int,
                    atr as int,
                ).1 == Some((p.price as int, p.is_peak)),
                None => spec_swing_step(
                    old(self)@,
                    candle.high as int,
                    candle.low as int,
                    atr as int,
                ).1 is None,
            },
    {
        match self.trend {
            None => {
                self.swing_high = candle.high;
                self.swing_low = candle.low;
                self.trend = Some(Trend::Up);
                None
            },
            Some(Trend::Up) => {
                if candle.high > self.swing_high {
                    self.swing_high = candle.high;
                }
                proof {
                    assert((self.rev_atr_bp as int) * (atr as int) <= u128::MAX) by (nonlinear_arith)
                        requires
                            self.rev_atr_bp <= u64::MAX,
                            atr <= u64::MAX,
                    ;
                }
                if (self.swing_high - candle.low) as u128 * 10000 >= self.rev_atr_bp as u128
                    * atr as u128 {
                    let peak = SwingPoint { price: self.swing_high, is_peak: true };
                    self.trend = Some(Trend::Down);
                    self.swing_low = candle.low;
                    Some(peak)
                } else {
                    None
                }
            },
            Some(Trend::Down) => {
                if candle.low < self.swing_low {
                    self.swing_low = candle.low;
                }
                proof {
                    assert((self.rev_atr_bp as int) * (atr as int) <= u128::MAX) by (nonlinear_arith)
                        requires
                            self.rev_atr_bp <= u64::MAX,
                            atr <= u64::MAX,
                    ;
                }
                if (candle.high - self.swing_low) as u128 * 10000 >= self.rev_atr_bp as u128
                    * atr as u128 {
                    let trough = SwingPoint { price: self.swing_low, is_peak: false };
                    self.trend = Some(Trend::Up);
                    self.swing_high = candle.high;
                    Some(trough)
                } else {
                    None
                }
            },
        }
    }
}

/// The swing detector's state and emitted points after stepping through
/// `inputs`, a sequence of `(high, low, volatility)` triples.
pub open spec fn spec_swing_run(m: SwingModel, inputs: Seq<(int, int, int)>) -> (SwingModel, Seq<
    (int, bool),
>)
    decreases inputs.len(),
{
    if inputs.len() == 0 {
        (m, Seq::empty())
    } else {
        let prior = spec_swing_run(m, inputs.drop_last());
        let last = inputs.last();
        let step = spec_swing_step(prior.0, last.0, last.1, last.2);
        (
            step.0,
            match step.1 {
                Some(p) => prior.1.push(p),
                None => prior.1,
            },
        )
    }
}

/// No two consecutive points share a polarity.
pub open spec fn alternating_polarity(pts: Seq<(int, bool)>) -> bool {
    forall|i: int| 0 <= i < pts.len() - 1 ==> pts[i].1 != #[trigger] pts[i + 1].1
}

/// The emitted points alternate, and the latest one is a peak exactly when
/// the detector is now trending down.
spec fn swing_run_invariant(m: SwingModel, pts: Seq<(int, bool)>) -> bool {
    &&& alternating_polarity(pts)
    &&& pts.len() > 0 ==> (pts.last().1 <==> m.trend == Some(Trend::Down))
}

proof fn lemma_swing_run_invariant(m: SwingModel, inputs: Seq<(int, int, int)>)
    requires
        m.trend is None,
    ensures
        swing_run_invariant(spec_swing_run(m, inputs).0, spec_swing_run(m, inputs).1),
    decreases inputs.len(),
{
    if inputs.len() > 0 {
        lemma_swing_run_invariant(m, inputs.drop_last());
        let prior = spec_swing_run(m, inputs.drop_last());
        let last = inputs.last();
        let step = spec_swing_step(prior.0, last.0, last.1, last.2);
        match step.1 {
            Some(p) => {
                assert(spec_swing_run(m, inputs).1 == prior.1.push(p));
                assert(prior.1.push(p).last() == p);
            },
            None => {},
        }
    }
}

/// Over the swing detector's defining functions: starting from a fresh
/// detector, the emitted swing points never contain two consecutive points
/// of the same polarity.
pub proof fn lemma_swing_points_alternate(m: SwingModel, inputs: Seq<(int, int, int)>)
    requires
        m.trend is None,
    ensures
        alternating_polarity(spec_swing_run(m, inputs).1),
{
    lemma_swing_run_invariant(m, inputs);
}

} // verus!
