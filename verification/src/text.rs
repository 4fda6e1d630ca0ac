use vstd::prelude::*;

use crate::double_top::PatternState;

verus! {

/// The decimal digit character for `d`.
pub open spec fn digit_char(d: int) -> char {
    if d == 0 {
        '0'
    } else if d == 1 {
        '1'
    } else if d == 2 {
        '2'
    } else if d == 3 {
        '3'
    } else if d == 4 {
        '4'
    } else if d == 5 {
        '5'
    } else if d == 6 {
        '6'
    } else if d == 7 {
        '7'
    } else if d == 8 {
        '8'
    } else {
        '9'
    }
}

/// The decimal digits of `n`, most significant first.
pub open spec fn spec_decimal_digits(n: nat) -> Seq<char>
    decreases n,
{
    if n < 10 {
        seq![digit_char(n as int)]
    } else {
        spec_decimal_digits(n / 10).push(digit_char((n % 10) as int))
    }
}

/// A price in hundredths, written with a point and exactly two decimal
/// places.
pub open spec fn spec_price_chars(n: nat) -> Seq<char> {
    spec_decimal_digits(n / 100) + seq!['.', digit_char(((n / 10) % 10) as int), digit_char(
        (n % 10) as int,
    )]
}

fn digit_str(d: u64) -> (r: &'static str)
    requires
        d < 10,
    ensures
        r@ == seq![digit_char(d as int)],
{
    let r: &'static str = if d == 0 {
        "0"
    } else if d == 1 {
        "1"
    } else if d == 2 {
        "2"
    } else if d == 3 {
        "3"
    } else if d == 4 {
        "4"
    } else if d == 5 {
        "5"
    } else if d == 6 {
        "6"
    } else if d == 7 {
        "7"
    } else if d == 8 {
        "8"
    } else {
        "9"
    };
    proof {
        reveal_strlit("0");
        reveal_strlit("1");
        reveal_strlit("2");
        reveal_strlit("3");
        reveal_strlit("4");
        reveal_strlit("5");
        reveal_strlit("6");
        reveal_strlit("7");
        reveal_strlit("8");
        reveal_strlit("9");
        assert(r@ =~= seq![digit_char(d as int)]);
    }
    r
}

/// Writes `n` in decimal.
pub fn format_u64(n: u64) -> (r: String)
    ensures
        r@ == spec_decimal_digits(n as nat),
    decreases n,
{
    if n < 10 {
        digit_str(n).to_owned()
    } else {
        let front = format_u64(n / 10);
        front.concat(digit_str(n % 10))
    }
}

/// Writes a price held in hundredths with two decimal places.
pub fn format_price(price: u64) -> (r: String)
    ensures
        r@ == spec_price_chars(price as nat),
{
    proof {
        reveal_strlit(".");
    }
    let whole = format_u64(price / 100);
    let joined = whole.concat(".").concat(digit_str((price / 10) % 10)).concat(
        digit_str(price % 10),
    );
    proof {
        assert(joined@ =~= spec_price_chars(price as nat));
    }
    joined
}

/// `a` comes no later than `b` in lexicographic order by character code.
pub open spec fn spec_lex_le(a: Seq<char>, b: Seq<char>) -> bool
    decreases a.len(),
{
    if a.len() == 0 {
        true
    } else if b.len() == 0 {
        false
    } else if a[0] == b[0] {
        spec_lex_le(a.skip(1), b.skip(1))
    } else {
        (a[0] as int) < (b[0] as int)
    }
}

/// `a` comes strictly before `b`.
pub open spec fn spec_lex_lt(a: Seq<char>, b: Seq<char>) -> bool {
    spec_lex_le(a, b) && a != b
}

/// Lexicographic order is total.
pub proof fn lemma_lex_le_total(a: Seq<char>, b: Seq<char>)
    ensures
        spec_lex_le(a, b) || spec_lex_le(b, a),
    decreases a.len(),
{
    if a.len() > 0 && b.len() > 0 && a[0] == b[0] {
        lemma_lex_le_total(a.skip(1), b.skip(1));
    }
}

/// Compares two string slices in lexicographic order by character code.
pub fn str_le(a: &str, b: &str) -> (r: bool)
    ensures
        r == spec_lex_le(a@, b@),
{
    let la = a.unicode_len();
    let lb = b.unicode_len();
    let mut i: usize = 0;
    proof {
        assert(a@.skip(0) =~= a@);
        assert(b@.skip(0) =~= b@);
    }
    loop
        invariant
            i <= la,
            i <= lb,
            la == a@.len(),
            lb == b@.len(),
            spec_lex_le(a@, b@) == spec_lex_le(a@.skip(i as int), b@.skip(i as int)),
        decreases la - i,
    {
        if i == la {
            return true;
        }
        if i == lb {
            return false;
        }
        let ca = a.get_char(i);
        let cb = b.get_char(i);
        if ca != cb {
            return (ca as u32) < (cb as u32);
        }
        proof {
            assert(a@.skip(i as int).skip(1) =~= a@.skip(i as int + 1));
            assert(b@.skip(i as int).skip(1) =~= b@.skip(i as int + 1));
        }
        i = i + 1;
    }
}

/// The one-line status text for an instrument: a pure function of the
/// reported fields, phrased per state.
pub open spec fn spec_summary(
    coin: Seq<char>,
    state: PatternState,
    peak1_price: Option<int>,
    neckline_price: Option<int>,
    is_warmed_up: bool,
) -> Seq<char> {
    if !is_warmed_up {
        coin + ": warming up, collecting candles before detection."@
    } else {
        match state {
            PatternState::Watching => coin + ": watching for the first peak."@,
            PatternState::PeakFound => match peak1_price {
                Some(p) => coin + ": first peak found at $"@ + spec_price_chars(p as nat)
                    + "; waiting for pullback."@,
                None => coin + ": first peak found; waiting for pullback."@,
            },
            PatternState::TroughFound => match (peak1_price, neckline_price) {
                (Some(p), Some(t)) => coin + ": trough at $"@ + spec_price_chars(t as nat)
                    + " after peak at $"@ + spec_price_chars(p as nat)
                    + "; watching for second peak."@,
                (Some(p), None) => coin + ": pullback detected after peak at $"@
                    + spec_price_chars(p as nat) + "; watching for second peak."@,
                _ => coin + ": pullback detected; watching for second peak."@,
            },
            PatternState::Forming => match peak1_price {
                Some(p) => coin + ": price is approaching the first peak near $"@
                    + spec_price_chars(p as nat) + " (early warning)."@,
                None => coin + ": price is approaching the first peak (early warning)."@,
            },
            PatternState::Confirmed => match neckline_price {
                Some(t) => coin + ": double top confirmed; broke neckline near $"@
                    + spec_price_chars(t as nat) + "."@,
                None => coin + ": double top confirmed."@,
            },
            PatternState::Invalidated => match peak1_price {
                Some(p) => coin + ": pattern invalidated after peak at $"@ + spec_price_chars(
                    p as nat,
                ) + "; watching for new setup."@,
                None => coin + ": pattern invalidated; watching for new setup."@,
            },
        }
    }
}

/// Builds the one-line status text of `spec_summary`.
pub fn build_summary(
    coin: &str,
    state: PatternState,
    peak1_price: Option<u64>,
    neckline_price: Option<u64>,
    is_warmed_up: bool,
) -> (r: String)
    ensures
        r@ == spec_summary(
            coin@,
            state,
            crate::double_top::opt_int(peak1_price),
            crate::double_top::opt_int(neckline_price),
            is_warmed_up,
        ),
{
    if !is_warmed_up {
        return coin.to_owned().concat(": warming up, collecting candles before detection.");
    }
    match state {
        PatternState::Watching => coin.to_owned().concat(": watching for the first peak."),
        PatternState::PeakFound => match peak1_price {
            Some(p) => coin.to_owned().concat(": first peak found at $").concat(
                format_price(p).as_str(),
            ).concat("; waiting for pullback."),
            None => coin.to_owned().concat(": first peak found; waiting for pullback."),
        },
        PatternState::TroughFound => match (peak1_price, neckline_price) {
            (Some(p), Some(t)) => coin.to_owned().concat(": trough at $").concat(
                format_price(t).as_str(),
            ).concat(" after peak at $").concat(format_price(p).as_str()).concat(
                "; watching for second peak.",
            ),
            (Some(p), None) => coin.to_owned().concat(": pullback detected after peak at $")
                .concat(format_price(p).as_str()).concat("; watching for second peak."),
            _ => coin.to_owned().concat(": pullback detected; watching for second peak."),
        },
        PatternState::Forming => match peak1_price {
            Some(p) => coin.to_owned().concat(": price is approaching the first peak near $")
                .concat(format_price(p).as_str()).concat(" (early warning)."),
            None => coin.to_owned().concat(": price is approaching the first peak (early warning)."),
        },
        PatternState::Confirmed => match neckline_price {
            Some(t) => coin.to_owned().concat(": double top confirmed; broke neckline near $")
                .concat(format_price(t).as_str()).concat("."),
            None => coin.to_owned().concat(": double top confirmed."),
        },
        PatternState::Invalidated => match peak1_price {
            Some(p) => coin.to_owned().concat(": pattern invalidated after peak at $").concat(
                format_price(p).as_str(),
            ).concat("; watching for new setup."),
            None => coin.to_owned().concat(": pattern invalidated; watching for new setup."),
        },
    }
}

} // verus!
