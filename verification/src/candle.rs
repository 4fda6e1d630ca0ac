use vstd::prelude::*;

verus! {

/// One price candle. Prices are fixed-point integers counted in hundredths
/// of the quote currency; times are epoch milliseconds.
#[derive(Debug, Clone)]
pub struct Candle {
    /// Candle open time (epoch ms).
    pub open_time: u64,
    /// Candle close time (epoch ms).
    pub close_time: u64,
    /// Open price, in hundredths.
    pub open: u64,
    /// High price, in hundredths.
    pub high: u64,
    /// Low price, in hundredths.
    pub low: u64,
    /// Close price, in hundredths.
    pub close: u64,
    /// Traded volume, in hundredths.
    pub volume: u64,
    /// Number of trades.
    pub num_trades: u64,
    /// Candle interval, when the upstream feed carries it.
    pub interval: Option<String>,
    /// Instrument symbol, when the upstream feed carries it.
    pub symbol: Option<String>,
}

impl Candle {
    /// A candle is well formed when its high/low range contains its open and
    /// close prices. Malformed candles are rejected at the fetch boundary;
    /// the detection core requires this of every candle it is fed.
    pub open spec fn valid(self) -> bool {
        &&& self.low <= self.open <= self.high
        &&& self.low <= self.close <= self.high
    }

    /// Boundary check for candles arriving from an upstream feed.
    pub fn is_valid(&self) -> (r: bool)
        ensures
            r == self.valid(),
    {
        self.low <= self.open && self.open <= self.high && self.low <= self.close
            && self.close <= self.high
    }
}

/// The numeric and time fields of `c` agree with those of `o`.
pub open spec fn same_candle_data(c: Candle, o: Candle) -> bool {
    &&& c.open_time == o.open_time
    &&& c.close_time == o.close_time
    &&& c.open == o.open
    &&& c.high == o.high
    &&& c.low == o.low
    &&& c.close == o.close
    &&& c.volume == o.volume
    &&& c.num_trades == o.num_trades
}

/// `newv` is `oldv` with an absent value replaced by the characters `fill`.
pub open spec fn filled_with(newv: Option<String>, oldv: Option<String>, fill: Seq<char>) -> bool {
    match oldv {
        Some(s) => newv == Some(s),
        None => match newv {
            Some(d) => d@ == fill,
            None => false,
        },
    }
}

/// Fills the interval and symbol of every candle that arrived without them;
/// everything else is left untouched.
pub fn normalize_candles(candles: &mut Vec<Candle>, coin: &str, interval: &str)
    ensures
        final(candles)@.len() == old(candles)@.len(),
        forall|i: int|
            0 <= i < final(candles)@.len() ==> {
                &&& same_candle_data(#[trigger] final(candles)@[i], old(candles)@[i])
                &&& filled_with(final(candles)@[i].interval, old(candles)@[i].interval, interval@)
                &&& filled_with(final(candles)@[i].symbol, old(candles)@[i].symbol, coin@)
            },
{
    let mut i: usize = 0;
    while i < candles.len()
        invariant
            0 <= i <= candles@.len(),
            candles@.len() == old(candles)@.len(),
            forall|j: int|
                0 <= j < i ==> {
                    &&& same_candle_data(#[trigger] candles@[j], old(candles)@[j])
                    &&& filled_with(candles@[j].interval, old(candles)@[j].interval, interval@)
                    &&& filled_with(candles@[j].symbol, old(candles)@[j].symbol, coin@)
                },
            forall|j: int| i <= j < candles@.len() ==> candles@[j] == old(candles)@[j],
        decreases candles@.len() - i,
    {
        let mut taken = Candle {
            open_time: 0,
            close_time: 0,
            open: 0,
            high: 0,
            low: 0,
            close: 0,
            volume: 0,
            num_trades: 0,
            interval: None,
            symbol: None,
        };
        candles.set_and_swap(i, &mut taken);
        if taken.interval.is_none() {
            taken.interval = Some(interval.to_owned());
        }
        if taken.symbol.is_none() {
            taken.symbol = Some(coin.to_owned());
        }
        candles.set_and_swap(i, &mut taken);
        i = i + 1;
    }
}

} // verus!
