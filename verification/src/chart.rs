use vstd::prelude::*;

use crate::candle::Candle;

verus! {

/// Compares two string slices by their character sequences.
pub fn str_eq(a: &str, b: &str) -> (r: bool)
    ensures
        r == (a@ == b@),
{
    let sa = a.to_owned();
    let sb = b.to_owned();
    sa == sb
}

/// The length of one candle interval in milliseconds, by its name.
pub open spec fn spec_interval_ms(s: Seq<char>) -> Option<u64> {
    if s == "1m"@ {
        Some(60_000u64)
    } else if s == "3m"@ {
        Some(180_000u64)
    } else if s == "5m"@ {
        Some(300_000u64)
    } else if s == "15m"@ {
        Some(900_000u64)
    } else if s == "30m"@ {
        Some(1_800_000u64)
    } else if s == "1h"@ {
        Some(3_600_000u64)
    } else if s == "2h"@ {
        Some(7_200_000u64)
    } else if s == "4h"@ {
        Some(14_400_000u64)
    } else if s == "8h"@ {
        Some(28_800_000u64)
    } else if s == "12h"@ {
        Some(43_200_000u64)
    } else if s == "1d"@ {
        Some(86_400_000u64)
    } else if s == "3d"@ {
        Some(259_200_000u64)
    } else if s == "1w"@ {
        Some(604_800_000u64)
    } else if s == "1M"@ {
        Some(2_592_000_000u64)
    } else {
        None
    }
}

/// Milliseconds in one candle of the named interval; nothing for an
/// unsupported name.
pub fn interval_ms(interval: &str) -> (r: Option<u64>)
    ensures
        r == spec_interval_ms(interval@),
{
    if str_eq(interval, "1m") {
        Some(60_000)
    } else if str_eq(interval, "3m") {
        Some(180_000)
    } else if str_eq(interval, "5m") {
        Some(300_000)
    } else if str_eq(interval, "15m") {
        Some(900_000)
    } else if str_eq(interval, "30m") {
        Some(1_800_000)
    } else if str_eq(interval, "1h") {
        Some(3_600_000)
    } else if str_eq(interval, "2h") {
        Some(7_200_000)
    } else if str_eq(interval, "4h") {
        Some(14_400_000)
    } else if str_eq(interval, "8h") {
        Some(28_800_000)
    } else if str_eq(interval, "12h") {
        Some(43_200_000)
    } else if str_eq(interval, "1d") {
        Some(86_400_000)
    } else if str_eq(interval, "3d") {
        Some(259_200_000)
    } else if str_eq(interval, "1w") {
        Some(604_800_000)
    } else if str_eq(interval, "1M") {
        Some(2_592_000_000)
    } else {
        None
    }
}

/// The names of every supported candle interval.
pub fn supported_intervals() -> (r: Vec<&'static str>)
    ensures
        r@.len() == 14,
        forall|i: int| 0 <= i < r@.len() ==> spec_interval_ms(#[trigger] r@[i]@) is Some,
{
    let mut v: Vec<&'static str> = Vec::new();
    v.push("1m");
    v.push("3m");
    v.push("5m");
    v.push("15m");
    v.push("30m");
    v.push("1h");
    v.push("2h");
    v.push("4h");
    v.push("8h");
    v.push("12h");
    v.push("1d");
    v.push("3d");
    v.push("1w");
    v.push("1M");
    v
}

#[verifier::external_type_specification]
#[verifier::external_body]
pub struct ExValidationError(validator::ValidationError);

/// Relies on validator::ValidationError::new and with_message: builds the
/// error value that carries the given code and message. The value itself
/// is opaque here; tests read its fields through the validator crate.
#[verifier::external_body]
fn new_validation_error(code: &'static str, message: String) -> validator::ValidationError {
    validator::ValidationError::new(code).with_message(message.into())
}

/// Accepts exactly the supported interval names; any other name is
/// rejected with an `unsupported_interval` validation error.
pub fn validate_interval(value: &str) -> (r: Result<(), validator::ValidationError>)
    ensures
        r is Ok <==> spec_interval_ms(value@) is Some,
{
    if interval_ms(value).is_some() {
        return Ok(());
    }
    Err(
        new_validation_error(
            "unsupported_interval",
            "interval must be one of: 1m, 3m, 5m, 15m, 30m, 1h, 2h, 4h, 8h, 12h, 1d, 3d, 1w, 1M".to_owned(),
        ),
    )
}

/// Query of the chart stream endpoint.
#[derive(Debug, Clone)]
pub struct ChartStreamQuery {
    /// Instrument symbol.
    pub coin: String,
    /// Candle interval name.
    pub interval: String,
    /// Number of candles to serve.
    pub limit: usize,
}

impl ChartStreamQuery {
    /// The query is acceptable: a coin name of 1 to 24 characters, a
    /// supported interval, and a limit between 1 and 5000.
    pub open spec fn valid(self) -> bool {
        &&& 1 <= self.coin@.len() <= 24
        &&& spec_interval_ms(self.interval@) is Some
        &&& 1 <= self.limit <= 5000
    }

    /// Checks the query, reporting the first field that fails.
    pub fn validate(&self) -> (r: Result<(), validator::ValidationError>)
        ensures
            r is Ok <==> self.valid(),
    {
        let coin_len = self.coin.as_str().unicode_len();
        if coin_len < 1 || coin_len > 24 {
            return Err(
                new_validation_error("length", "coin must be 1 to 24 characters".to_owned()),
            );
        }
        if let Err(e) = validate_interval(self.interval.as_str()) {
            return Err(e);
        }
        if self.limit < 1 || self.limit > 5000 {
            return Err(
                new_validation_error("range", "limit must be between 1 and 5000".to_owned()),
            );
        }
        Ok(())
    }
}

/// Point-in-time chart data for one instrument.
#[derive(Debug, Clone)]
pub struct ChartSnapshot {
    /// When the snapshot was taken (epoch ms).
    pub as_of_ms: u64,
    /// Instrument symbol.
    pub coin: String,
    /// Candle interval name.
    pub interval: String,
    /// The candles, ascending in time.
    pub candles: Vec<Candle>,
}

/// Default number of candles served by a chart query when the caller
/// does not give one.
pub fn default_limit() -> (r: usize)
    ensures
        r == 200,
{
    200
}

/// The fetch window for a chart snapshot: the `limit * interval_ms`
/// milliseconds that end now, clamped at the epoch.
pub fn build_time_range(now_ms: u64, interval_ms: u64, limit: usize) -> (r: (u64, u64))
    ensures
        r.1 == now_ms,
        r.0 == crate::indicators::max_int(0, now_ms - interval_ms * (limit as int)),
{
    proof {
        assert((interval_ms as int) * (limit as int) <= u128::MAX) by (nonlinear_arith)
            requires
                interval_ms <= u64::MAX,
                limit <= u64::MAX,
        ;
    }
    let span128: u128 = interval_ms as u128 * limit as u128;
    let span: u64 = if span128 > u64::MAX as u128 {
        u64::MAX
    } else {
        span128 as u64
    };
    let start = now_ms.saturating_sub(span);
    (start, now_ms)
}

} // verus!
