use vstd::prelude::*;

use crate::double_top::PatternState;

verus! {

/// Derived, read-only status of one instrument's detector, rebuilt every
/// monitoring cycle.
#[derive(Debug, Clone)]
pub struct CoinPatternStatus {
    /// Instrument symbol.
    pub coin: String,
    /// Name of the pattern state.
    pub state: String,
    /// Price of the first peak, if one is recorded.
    pub peak1_price: Option<u64>,
    /// Price of the tracked trough (the neckline), if one is recorded.
    pub neckline_price: Option<u64>,
    /// Price of the second peak, if one is recorded.
    pub peak2_price: Option<u64>,
    /// The detector has seen its warmup count of candles.
    pub is_warmed_up: bool,
    /// One-line description of the status.
    pub summary: String,
}

/// Statuses of every monitored instrument.
#[derive(Debug, Clone)]
pub struct DoubleTopResponse {
    pub patterns: Vec<CoinPatternStatus>,
}

/// One published snapshot: the statuses of every instrument, sorted by
/// instrument, and the time they were taken.
#[derive(Debug, Clone)]
pub struct PatternSnapshot {
    /// When the snapshot was taken (epoch ms).
    pub as_of_ms: u64,
    /// Per-instrument statuses, sorted by instrument symbol.
    pub patterns: Vec<CoinPatternStatus>,
}

/// The reported name of a pattern state.
pub open spec fn spec_state_label(state: PatternState) -> Seq<char> {
    match state {
        PatternState::Watching => "WATCHING"@,
        PatternState::PeakFound => "PEAK_FOUND"@,
        PatternState::TroughFound => "TROUGH_FOUND"@,
        PatternState::Forming => "FORMING"@,
        PatternState::Confirmed => "CONFIRMED"@,
        PatternState::Invalidated => "INVALIDATED"@,
    }
}

/// The name under which a pattern state is reported.
pub fn state_label(state: PatternState) -> (r: &'static str)
    ensures
        r@ == spec_state_label(state),
{
    match state {
        PatternState::Watching => "WATCHING",
        PatternState::PeakFound => "PEAK_FOUND",
        PatternState::TroughFound => "TROUGH_FOUND",
        PatternState::Forming => "FORMING",
        PatternState::Confirmed => "CONFIRMED",
        PatternState::Invalidated => "INVALIDATED",
    }
}

} // verus!
