use vstd::prelude::*;

use crate::candle::Candle;
use crate::config::{ConfigError, DoubleTopConfig};
use crate::double_top::{
    fresh_model, opt_int, phase_state, spec_alert_matches, spec_detector_step, spec_neckline_price,
    spec_peak1_price, spec_peak2_price, Alert, AlertKind, DetectorModel, DoubleTopDetector,
};
use crate::chart::str_eq;
use crate::status::{spec_state_label, state_label, CoinPatternStatus, PatternSnapshot};
use crate::text::{build_summary, lemma_lex_le_total, spec_lex_lt, spec_summary, str_le};

verus! {

/// Length of one monitoring cycle, and of one minute candle, in
/// milliseconds: a candle is fed only once it has been closed this long.
pub const INTERVAL_MS: u64 = 60_000;

/// One monitored instrument: its detector and the close time of the last
/// candle fed into it (the watermark).
struct CoinMonitor {
    coin: String,
    detector: DoubleTopDetector,
    last_candle_time: Option<u64>,
}

/// Mathematical state of one monitored instrument.
pub struct MonitorEntryModel {
    /// Instrument symbol.
    pub coin: Seq<char>,
    /// State of the instrument's detector.
    pub detector: DetectorModel,
    /// Close time of the last candle fed, if any was.
    pub watermark: Option<int>,
}

impl CoinMonitor {
    spec fn model(self) -> MonitorEntryModel {
        MonitorEntryModel {
            coin: self.coin@,
            detector: self.detector.model(),
            watermark: opt_int(self.last_candle_time),
        }
    }
}

/// Feeding `candles` into a detector above the watermark `wm`: every
/// candle fully closed at `now` and strictly newer than the watermark is
/// processed in order and advances the watermark; every other candle is
/// skipped. Returns the final detector, the final watermark and the
/// alerts raised, oldest first.
pub open spec fn spec_feed(
    d: DetectorModel,
    wm: Option<int>,
    candles: Seq<Candle>,
    now: int,
) -> (DetectorModel, Option<int>, Seq<AlertKind>)
    decreases candles.len(),
{
    if candles.len() == 0 {
        (d, wm, Seq::empty())
    } else {
        let prior = spec_feed(d, wm, candles.drop_last(), now);
        let c = candles.last();
        if c.close_time + INTERVAL_MS <= now && (match prior.1 {
            Some(w) => c.close_time > w,
            None => true,
        }) {
            let st = spec_detector_step(prior.0, c.high as int, c.low as int, c.close as int);
            (
                st.0,
                Some(c.close_time as int),
                match st.1 {
                    Some(k) => prior.2.push(k),
                    None => prior.2,
                },
            )
        } else {
            prior
        }
    }
}

/// Every alert in `alerts` carries the instrument `coin` and matches the
/// model alert at its position.
pub open spec fn spec_alerts_match(alerts: Seq<Alert>, coin: Seq<char>, kinds: Seq<AlertKind>) -> bool {
    &&& alerts.len() == kinds.len()
    &&& forall|i: int|
        0 <= i < alerts.len() ==> spec_alert_matches(
            Some(#[trigger] alerts[i]),
            coin,
            Some(kinds[i]),
        )
}

/// Some monitored instrument carries the symbol `c`.
pub open spec fn spec_has_coin(entries: Seq<MonitorEntryModel>, c: Seq<char>) -> bool {
    exists|j: int| 0 <= j < entries.len() && #[trigger] entries[j].coin == c
}

/// The status row `s` reports exactly the state of the instrument `e`.
pub open spec fn spec_status_matches(s: CoinPatternStatus, e: MonitorEntryModel) -> bool {
    &&& s.coin@ == e.coin
    &&& s.state@ == spec_state_label(phase_state(e.detector.phase))
    &&& opt_int(s.peak1_price) == spec_peak1_price(e.detector.phase)
    &&& opt_int(s.neckline_price) == spec_neckline_price(e.detector.phase)
    &&& opt_int(s.peak2_price) == spec_peak2_price(e.detector.phase)
    &&& s.is_warmed_up == (e.detector.candle_count >= e.detector.config.warmup_candles)
    &&& s.summary@ == spec_summary(
        e.coin,
        phase_state(e.detector.phase),
        spec_peak1_price(e.detector.phase),
        spec_neckline_price(e.detector.phase),
        s.is_warmed_up,
    )
}

/// Runs double top detection for many instruments: one detector per
/// instrument, fed independently, reported as one sorted snapshot.
pub struct MonitorService {
    config: DoubleTopConfig,
    entries: Vec<CoinMonitor>,
}

impl MonitorService {
    /// The configuration every detector runs on.
    pub closed spec fn config_spec(self) -> DoubleTopConfig {
        self.config
    }

    /// Mathematical state of the monitored instruments, in their standing
    /// order.
    pub closed spec fn entries_model(self) -> Seq<MonitorEntryModel> {
        self.entries@.map_values(|e: CoinMonitor| e.model())
    }

    /// Internal consistency: every detector is well formed, runs on the
    /// service's configuration and is tagged with its entry's instrument;
    /// the entries are strictly sorted by instrument symbol.
    pub closed spec fn wf(self) -> bool {
        &&& self.config.valid()
        &&& forall|i: int|
            0 <= i < self.entries@.len() ==> {
                let e = #[trigger] self.entries@[i];
                &&& e.detector.wf()
                &&& e.detector.model().config == self.config
                &&& e.coin@ == e.detector.coin_view()
            }
        &&& forall|i: int|
            #![trigger self.entries@[i], self.entries@[i + 1]]
            0 <= i < self.entries@.len() - 1 ==> spec_lex_lt(
                self.entries@[i].coin@,
                self.entries@[i + 1].coin@,
            )
    }

    /// The instruments are strictly sorted by symbol.
    pub open spec fn sorted_spec(self) -> bool {
        forall|i: int|
            #![trigger self.entries_model()[i], self.entries_model()[i + 1]]
            0 <= i < self.entries_model().len() - 1 ==> spec_lex_lt(
                self.entries_model()[i].coin,
                self.entries_model()[i + 1].coin,
            )
    }

    /// Builds one fresh detector per distinct instrument, sorted by
    /// symbol, rejecting invalid configuration outright.
    #[verifier::rlimit(100)]
    pub fn new(coins: Vec<String>, config: DoubleTopConfig) -> (r: Result<Self, ConfigError>)
        ensures
            config.valid() ==> match r {
                Ok(s) => {
                    &&& s.wf()
                    &&& s.config_spec() == config
                    &&& s.sorted_spec()
                    &&& forall|j: int|
                        0 <= j < s.entries_model().len() ==> {
                            let e = #[trigger] s.entries_model()[j];
                            &&& e.detector == fresh_model(config)
                            &&& e.watermark is None
                            &&& exists|i: int|
                                0 <= i < coins@.len() && e.coin == #[trigger] coins@[i]@
                        }
                    &&& forall|i: int|
                        0 <= i < coins@.len() ==> spec_has_coin(
                            s.entries_model(),
                            #[trigger] coins@[i]@,
                        )
                },
                Err(_) => false,
            },
            !config.valid() ==> r == Err::<Self, ConfigError>(
                if config.atr_period < 1 {
                    ConfigError::ZeroAtrPeriod
                } else {
                    ConfigError::ThresholdTooLarge
                },
            ),
    {
        if config.atr_period < 1 {
            return Err(ConfigError::ZeroAtrPeriod);
        }
        if !config.is_valid() {
            return Err(ConfigError::ThresholdTooLarge);
        }
        let mut entries: Vec<CoinMonitor> = Vec::new();
        let mut k: usize = 0;
        while k < coins.len()
            invariant
                k <= coins@.len(),
                config.valid(),
                building_invariant(entries@, coins@, k as int, config),
            decreases coins@.len() - k,
        {
            let coin = &coins[k];
            let slot = find_slot(&entries, coin.as_str());
            let ghost oe = entries@;
            if !slot.1 {
                let detector = match DoubleTopDetector::new(coin.clone(), config) {
                    Ok(d) => d,
                    Err(_) => {
                        proof {
                            assert(false);
                        }
                        return Err(ConfigError::ZeroAtrPeriod);
                    },
                };
                let entry = CoinMonitor {
                    coin: coin.clone(),
                    detector,
                    last_candle_time: None,
                };
                entries.insert(slot.0, entry);
                proof {
                    lemma_building_insert(oe, entries@[slot.0 as int], slot.0 as int, coins@, k as int, config);
                    assert(entries@ =~= oe.insert(slot.0 as int, entries@[slot.0 as int]));
                }
            } else {
                proof {
                    lemma_building_duplicate(entries@, coins@, k as int, config, slot.0 as int);
                }
            }
            k = k + 1;
        }
        let s = MonitorService { config, entries };
        proof {
            let em = s.entries_model();
            let n = coins@.len() as int;
            assert(em.len() == s.entries@.len());
            assert forall|j: int| 0 <= j < em.len() implies {
                let e = #[trigger] em[j];
                &&& e.detector == fresh_model(config)
                &&& e.watermark is None
                &&& exists|i: int| 0 <= i < coins@.len() && e.coin == #[trigger] coins@[i]@
            } by {
                assert(entry_good(s.entries@[j], config));
                assert(from_inputs(s.entries@[j].coin@, coins@, n));
                let m0 = choose|m: int| 0 <= m < n && s.entries@[j].coin@ == #[trigger] coins@[m]@;
                assert(em[j].coin == coins@[m0]@);
            }
            assert forall|i: int| 0 <= i < coins@.len() implies spec_has_coin(
                s.entries_model(),
                #[trigger] coins@[i]@,
            ) by {
                assert(present_in(coins@, i, s.entries@));
                let j0 = choose|j: int|
                    0 <= j < s.entries@.len() && coins@[i]@ == #[trigger] s.entries@[j].coin@;
                assert(0 <= j0 < s.entries_model().len() && s.entries_model()[j0].coin
                    == coins@[i]@);
            }
            assert forall|i: int|
                #![trigger em[i], em[i + 1]]
                0 <= i < em.len() - 1 implies spec_lex_lt(em[i].coin, em[i + 1].coin) by {
                assert(em[i].coin == s.entries@[i].coin@);
                assert(em[i + 1].coin == s.entries@[i + 1].coin@);
            }
            assert(s.wf());
        }
        Ok(s)
    }

    /// Number of monitored instruments.
    pub fn coin_count(&self) -> (r: usize)
        ensures
            r == self.entries_model().len(),
    {
        self.entries.len()
    }

    /// Symbol of the instrument standing at `idx`.
    pub fn coin_at(&self, idx: usize) -> (r: &String)
        requires
            idx < self.entries_model().len(),
        ensures
            r@ == self.entries_model()[idx as int].coin,
    {
        &self.entries[idx].coin
    }

    /// Watermark of the instrument standing at `idx`: the close time of
    /// the last candle fed into its detector.
    pub fn watermark_at(&self, idx: usize) -> (r: Option<u64>)
        requires
            idx < self.entries_model().len(),
        ensures
            opt_int(r) == self.entries_model()[idx as int].watermark,
    {
        self.entries[idx].last_candle_time
    }

    /// The configuration every detector runs on.
    pub fn config(&self) -> (r: &DoubleTopConfig)
        ensures
            *r == self.config_spec(),
    {
        &self.config
    }

    /// Feeds fetched candles to the instrument standing at `idx`, exactly
    /// as `spec_feed` says: only fully closed candles strictly newer than
    /// the watermark are processed, in order, and the watermark advances
    /// with each one. Returns the alerts raised, oldest first. No other
    /// instrument is touched — one instrument's data never affects
    /// another's detector.
    pub fn ingest_candles(&mut self, idx: usize, candles: &Vec<Candle>, now_ms: u64) -> (alerts: Vec<
        Alert,
    >)
        requires
            old(self).wf(),
            idx < old(self).entries_model().len(),
            forall|i: int| 0 <= i < candles@.len() ==> #[trigger] candles@[i].valid(),
            old(self).entries_model()[idx as int].detector.candle_count + candles@.len()
                < usize::MAX,
        ensures
            final(self).wf(),
            final(self).config_spec() == old(self).config_spec(),
            final(self).entries_model().len() == old(self).entries_model().len(),
            forall|i: int|
                0 <= i < final(self).entries_model().len() && i != idx
                    ==> final(self).entries_model()[i] == old(self).entries_model()[i],
            ({
                let e = old(self).entries_model()[idx as int];
                let f = spec_feed(e.detector, e.watermark, candles@, now_ms as int);
                &&& final(self).entries_model()[idx as int].coin == e.coin
                &&& final(self).entries_model()[idx as int].detector == f.0
                &&& final(self).entries_model()[idx as int].watermark == f.1
                &&& spec_alerts_match(alerts@, e.coin, f.2)
            }),
    {
        let ghost e0 = old(self).entries_model()[idx as int];
        let mut alerts: Vec<Alert> = Vec::new();
        let mut i: usize = 0;
        proof {
            assert(candles@.take(0) =~= Seq::<Candle>::empty());
        }
        while i < candles.len()
            invariant
                0 <= i <= candles@.len(),
                idx < self.entries@.len(),
                self.entries@.len() == old(self).entries@.len(),
                self.config == old(self).config,
                old(self).wf(),
                e0 == old(self).entries_model()[idx as int],
                forall|m: int|
                    0 <= m < self.entries@.len() && m != idx ==> self.entries@[m] == old(
                        self,
                    ).entries@[m],
                forall|m: int| 0 <= m < candles@.len() ==> #[trigger] candles@[m].valid(),
                e0.detector.candle_count + candles@.len() < usize::MAX,
                ({
                    let cur = self.entries@[idx as int];
                    let f = spec_feed(e0.detector, e0.watermark, candles@.take(i as int), now_ms as int);
                    &&& cur.detector.wf()
                    &&& cur.detector.model() == f.0
                    &&& cur.detector.model().config == self.config
                    &&& cur.coin@ == e0.coin
                    &&& cur.coin@ == cur.detector.coin_view()
                    &&& opt_int(cur.last_candle_time) == f.1
                    &&& spec_alerts_match(alerts@, e0.coin, f.2)
                    &&& f.0.candle_count <= e0.detector.candle_count + i
                }),
            decreases candles@.len() - i,
        {
            let c = &candles[i];
            let closed = (c.close_time as u128 + INTERVAL_MS as u128) <= (now_ms as u128);
            let newer = match self.entries[idx].last_candle_time {
                Some(w) => c.close_time > w,
                None => true,
            };
            if closed && newer {
                let entry = &mut self.entries[idx];
                let a = entry.detector.process_candle(c);
                entry.last_candle_time = Some(c.close_time);
                match a {
                    Some(alert) => alerts.push(alert),
                    None => {},
                }
            }
            proof {
                assert(candles@.take(i as int + 1).drop_last() =~= candles@.take(i as int));
                assert(candles@.take(i as int + 1).last() == candles@[i as int]);
            }
            i = i + 1;
        }
        proof {
            assert(candles@.take(candles@.len() as int) =~= candles@);
        }
        alerts
    }

    /// Derives one status row per instrument, in the service's standing
    /// (sorted) order.
    pub fn statuses(&self) -> (r: Vec<CoinPatternStatus>)
        requires
            self.wf(),
        ensures
            r@.len() == self.entries_model().len(),
            forall|i: int|
                0 <= i < r@.len() ==> spec_status_matches(
                    #[trigger] r@[i],
                    self.entries_model()[i],
                ),
    {
        let mut out: Vec<CoinPatternStatus> = Vec::new();
        let mut i: usize = 0;
        while i < self.entries.len()
            invariant
                0 <= i <= self.entries@.len(),
                self.wf(),
                out@.len() == i,
                forall|m: int|
                    0 <= m < i ==> spec_status_matches(
                        #[trigger] out@[m],
                        self.entries_model()[m],
                    ),
            decreases self.entries@.len() - i,
        {
            let e = &self.entries[i];
            let state = e.detector.state();
            let peak1_price = e.detector.peak1_price();
            let neckline_price = e.detector.neckline_price();
            let peak2_price = e.detector.peak2_price();
            let is_warmed_up = e.detector.is_warmed_up();
            let summary = build_summary(
                e.coin.as_str(),
                state,
                peak1_price,
                neckline_price,
                is_warmed_up,
            );
            let row = CoinPatternStatus {
                coin: e.coin.clone(),
                state: state_label(state).to_owned(),
                peak1_price,
                neckline_price,
                peak2_price,
                is_warmed_up,
                summary,
            };
            out.push(row);
            i = i + 1;
        }
        out
    }

    /// One published snapshot: every instrument's status, in sorted
    /// order, stamped with the given time.
    pub fn snapshot(&self, as_of_ms: u64) -> (r: PatternSnapshot)
        requires
            self.wf(),
        ensures
            r.as_of_ms == as_of_ms,
            r.patterns@.len() == self.entries_model().len(),
            forall|i: int|
                0 <= i < r.patterns@.len() ==> spec_status_matches(
                    #[trigger] r.patterns@[i],
                    self.entries_model()[i],
                ),
    {
        PatternSnapshot { as_of_ms, patterns: self.statuses() }
    }
}

/// The entry holds a fresh, well formed detector on `config`, tagged
/// with its own symbol, with no candle fed yet.
spec fn entry_good(e: CoinMonitor, config: DoubleTopConfig) -> bool {
    &&& e.detector.wf()
    &&& e.detector.model() == fresh_model(config)
    &&& e.detector.model().config == config
    &&& e.coin@ == e.detector.coin_view()
    &&& e.last_candle_time is None
}

/// `c` is the view of one of the first `k` input symbols.
spec fn from_inputs(c: Seq<char>, coins: Seq<String>, k: int) -> bool {
    exists|m: int| 0 <= m < k && c == #[trigger] coins[m]@
}

/// The view of input symbol `m` stands in some entry.
spec fn present_in(coins: Seq<String>, m: int, entries: Seq<CoinMonitor>) -> bool {
    exists|j: int| 0 <= j < entries.len() && coins[m]@ == #[trigger] entries[j].coin@
}

/// The loop invariant of `MonitorService::new`: the first `k` input
/// symbols have been folded into `entries`, which holds fresh, well
/// formed, strictly sorted monitors.
spec fn building_invariant(
    entries: Seq<CoinMonitor>,
    coins: Seq<String>,
    k: int,
    config: DoubleTopConfig,
) -> bool {
    &&& forall|i: int| 0 <= i < entries.len() ==> entry_good(#[trigger] entries[i], config)
    &&& forall|i: int|
        0 <= i < entries.len() ==> from_inputs(#[trigger] entries[i].coin@, coins, k)
    &&& forall|i: int|
        #![trigger entries[i], entries[i + 1]]
        0 <= i < entries.len() - 1 ==> spec_lex_lt(entries[i].coin@, entries[i + 1].coin@)
    &&& forall|m: int| 0 <= m < k ==> #[trigger] present_in(coins, m, entries)
}

proof fn lemma_from_inputs_widen(c: Seq<char>, coins: Seq<String>, k: int)
    requires
        from_inputs(c, coins, k),
    ensures
        from_inputs(c, coins, k + 1),
{
    let m0 = choose|m: int| 0 <= m < k && c == #[trigger] coins[m]@;
    assert(0 <= m0 < k + 1 && c == coins[m0]@);
}

proof fn lemma_present_in_insert(
    coins: Seq<String>,
    m: int,
    oe: Seq<CoinMonitor>,
    p: int,
    entry: CoinMonitor,
)
    requires
        present_in(coins, m, oe),
        0 <= p <= oe.len(),
    ensures
        present_in(coins, m, oe.insert(p, entry)),
{
    oe.insert_ensures(p, entry);
    let j0 = choose|j: int| 0 <= j < oe.len() && coins[m]@ == #[trigger] oe[j].coin@;
    let ne = oe.insert(p, entry);
    if j0 < p {
        assert(ne[j0] == oe[j0]);
        assert(coins[m]@ == ne[j0].coin@);
    } else {
        assert(ne[j0 + 1] == oe[j0]);
        assert(coins[m]@ == ne[j0 + 1].coin@);
    }
}

#[verifier::spinoff_prover]
proof fn lemma_building_insert(
    oe: Seq<CoinMonitor>,
    entry: CoinMonitor,
    p: int,
    coins: Seq<String>,
    k: int,
    config: DoubleTopConfig,
)
    requires
        building_invariant(oe, coins, k, config),
        0 <= p <= oe.len(),
        0 <= k < coins.len(),
        entry.coin@ == coins[k]@,
        entry_good(entry, config),
        forall|m: int| 0 <= m < p ==> spec_lex_lt(#[trigger] oe[m].coin@, entry.coin@),
        p < oe.len() ==> spec_lex_lt(entry.coin@, oe[p].coin@),
    ensures
        building_invariant(oe.insert(p, entry), coins, k + 1, config),
{
    let ne = oe.insert(p, entry);
    oe.insert_ensures(p, entry);
    assert forall|i: int| 0 <= i < ne.len() implies entry_good(#[trigger] ne[i], config) by {
        if i < p {
            assert(ne[i] == oe[i]);
        } else if i > p {
            assert(ne[i] == oe[i - 1]);
        }
    }
    assert forall|i: int| 0 <= i < ne.len() implies from_inputs(
        #[trigger] ne[i].coin@,
        coins,
        k + 1,
    ) by {
        if i < p {
            assert(ne[i] == oe[i]);
            lemma_from_inputs_widen(oe[i].coin@, coins, k);
        } else if i == p {
            assert(0 <= k < k + 1 && ne[p].coin@ == coins[k]@);
        } else {
            assert(ne[i] == oe[i - 1]);
            lemma_from_inputs_widen(oe[i - 1].coin@, coins, k);
        }
    }
    assert forall|i: int|
        #![trigger ne[i], ne[i + 1]]
        0 <= i < ne.len() - 1 implies spec_lex_lt(ne[i].coin@, ne[i + 1].coin@) by {
        if i + 1 < p {
            assert(ne[i] == oe[i] && ne[i + 1] == oe[i + 1]);
        } else if i + 1 == p {
            assert(ne[i] == oe[i] && ne[p] == entry);
        } else if i == p {
            assert(ne[i] == entry && ne[i + 1] == oe[i]);
        } else {
            assert(ne[i] == oe[i - 1] && ne[i + 1] == oe[i]);
        }
    }
    assert forall|m: int| 0 <= m < k + 1 implies #[trigger] present_in(coins, m, ne) by {
        if m < k {
            lemma_present_in_insert(coins, m, oe, p, entry);
        } else {
            assert(ne[p] == entry);
            assert(0 <= p < ne.len() && coins[m]@ == ne[p].coin@);
        }
    }
}

#[verifier::spinoff_prover]
proof fn lemma_building_duplicate(
    entries: Seq<CoinMonitor>,
    coins: Seq<String>,
    k: int,
    config: DoubleTopConfig,
    j0: int,
)
    requires
        building_invariant(entries, coins, k, config),
        0 <= k < coins.len(),
        0 <= j0 < entries.len(),
        entries[j0].coin@ == coins[k]@,
    ensures
        building_invariant(entries, coins, k + 1, config),
{
    assert forall|i: int| 0 <= i < entries.len() implies from_inputs(
        #[trigger] entries[i].coin@,
        coins,
        k + 1,
    ) by {
        lemma_from_inputs_widen(entries[i].coin@, coins, k);
    }
    assert forall|m: int| 0 <= m < k + 1 implies #[trigger] present_in(coins, m, entries) by {
        if m == k {
            assert(0 <= j0 < entries.len() && coins[m]@ == entries[j0].coin@);
        }
    }
}

/// Where `coin` stands relative to the sorted entries: either it is
/// already present (second component true), or the returned index is the
/// position at which it belongs.
fn find_slot(entries: &Vec<CoinMonitor>, coin: &str) -> (r: (usize, bool))
    ensures
        r.1 ==> r.0 < entries@.len() && entries@[r.0 as int].coin@ == coin@,
        !r.1 ==> {
            &&& r.0 <= entries@.len()
            &&& forall|m: int|
                0 <= m < r.0 ==> spec_lex_lt(#[trigger] entries@[m].coin@, coin@)
            &&& (r.0 < entries@.len() ==> spec_lex_lt(coin@, entries@[r.0 as int].coin@))
        },
{
    let mut j: usize = 0;
    while j < entries.len()
        invariant
            j <= entries@.len(),
            forall|m: int| 0 <= m < j ==> spec_lex_lt(#[trigger] entries@[m].coin@, coin@),
        decreases entries@.len() - j,
    {
        if str_eq(entries[j].coin.as_str(), coin) {
            return (j, true);
        }
        if !str_le(entries[j].coin.as_str(), coin) {
            proof {
                lemma_lex_le_total(entries@[j as int].coin@, coin@);
            }
            return (j, false);
        }
        j = j + 1;
    }
    (j, false)
}

} // verus!
