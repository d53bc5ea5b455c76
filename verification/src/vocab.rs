//! The vocabulary mapper: user-facing period and interval tokens are
//! translated to the internal fetch parameters.  An unrecognized token never
//! fails; it resolves silently to a fixed default (one month for periods,
//! one day for intervals).  Matching is exact-string and case-sensitive.

use vstd::prelude::*;

verus! {

/// Internal lookback-window parameter for a history fetch.
#[derive(Clone, Copy, Debug, PartialEq, Eq, Structural)]
pub enum RangeParam {
    D1,
    D5,
    M1,
    M3,
    M6,
    Y1,
    Y2,
    Y5,
    Y10,
    Ytd,
    Max,
}

/// Internal sampling-granularity parameter for a history fetch.
#[derive(Clone, Copy, Debug, PartialEq, Eq, Structural)]
pub enum IntervalParam {
    I1m,
    I2m,
    I5m,
    I15m,
    I30m,
    I90m,
    I1h,
    D1,
    D5,
    W1,
    M1,
    M3,
}

/// What `map_period` returns for a given token: each recognized token maps
/// to exactly one parameter, and everything else to the one-month default.
pub open spec fn spec_map_period(s: Seq<char>) -> RangeParam {
    if s == "1d"@ {
        RangeParam::D1
    } else if s == "5d"@ {
        RangeParam::D5
    } else if s == "1mo"@ {
        RangeParam::M1
    } else if s == "3mo"@ {
        RangeParam::M3
    } else if s == "6mo"@ {
        RangeParam::M6
    } else if s == "1y"@ {
        RangeParam::Y1
    } else if s == "2y"@ {
        RangeParam::Y2
    } else if s == "5y"@ {
        RangeParam::Y5
    } else if s == "10y"@ {
        RangeParam::Y10
    } else if s == "ytd"@ {
        RangeParam::Ytd
    } else if s == "max"@ {
        RangeParam::Max
    } else {
        RangeParam::M1
    }
}

/// The recognized period vocabulary.
pub open spec fn period_recognized(s: Seq<char>) -> bool {
    ||| s == "1d"@
    ||| s == "5d"@
    ||| s == "1mo"@
    ||| s == "3mo"@
    ||| s == "6mo"@
    ||| s == "1y"@
    ||| s == "2y"@
    ||| s == "5y"@
    ||| s == "10y"@
    ||| s == "ytd"@
    ||| s == "max"@
}

/// What `map_interval` returns for a given token.  `"60m"` and `"1h"` both
/// name the one-hour granularity; everything unrecognized maps to the
/// one-day default.
pub open spec fn spec_map_interval(s: Seq<char>) -> IntervalParam {
    if s == "1m"@ {
        IntervalParam::I1m
    } else if s == "2m"@ {
        IntervalParam::I2m
    } else if s == "5m"@ {
        IntervalParam::I5m
    } else if s == "15m"@ {
        IntervalParam::I15m
    } else if s == "30m"@ {
        IntervalParam::I30m
    } else if s == "90m"@ {
        IntervalParam::I90m
    } else if s == "60m"@ || s == "1h"@ {
        IntervalParam::I1h
    } else if s == "1d"@ {
        IntervalParam::D1
    } else if s == "5d"@ {
        IntervalParam::D5
    } else if s == "1wk"@ {
        IntervalParam::W1
    } else if s == "1mo"@ {
        IntervalParam::M1
    } else if s == "3mo"@ {
        IntervalParam::M3
    } else {
        IntervalParam::D1
    }
}

/// The recognized interval vocabulary.
pub open spec fn interval_recognized(s: Seq<char>) -> bool {
    ||| s == "1m"@
    ||| s == "2m"@
    ||| s == "5m"@
    ||| s == "15m"@
    ||| s == "30m"@
    ||| s == "90m"@
    ||| s == "60m"@
    ||| s == "1h"@
    ||| s == "1d"@
    ||| s == "5d"@
    ||| s == "1wk"@
    ||| s == "1mo"@
    ||| s == "3mo"@
}

/// Exact equality of two string slices, decided by content.
fn str_eq(a: &str, b: &str) -> (r: bool)
    ensures
        r == (a@ == b@),
{
    let sa: String = a.to_owned();
    let sb: String = b.to_owned();
    sa == sb
}

/// Translate a period token to the internal lookback parameter.  An
/// unrecognized token resolves to the one-month default.
pub fn map_period(token: &str) -> (r: RangeParam)
    ensures
        r == spec_map_period(token@),
{
    if str_eq(token, "1d") {
        RangeParam::D1
    } else if str_eq(token, "5d") {
        RangeParam::D5
    } else if str_eq(token, "1mo") {
        RangeParam::M1
    } else if str_eq(token, "3mo") {
        RangeParam::M3
    } else if str_eq(token, "6mo") {
        RangeParam::M6
    } else if str_eq(token, "1y") {
        RangeParam::Y1
    } else if str_eq(token, "2y") {
        RangeParam::Y2
    } else if str_eq(token, "5y") {
        RangeParam::Y5
    } else if str_eq(token, "10y") {
        RangeParam::Y10
    } else if str_eq(token, "ytd") {
        RangeParam::Ytd
    } else if str_eq(token, "max") {
        RangeParam::Max
    } else {
        RangeParam::M1
    }
}

/// Translate an interval token to the internal granularity parameter.  An
/// unrecognized token resolves to the one-day default.
pub fn map_interval(token: &str) -> (r: IntervalParam)
    ensures
        r == spec_map_interval(token@),
{
    if str_eq(token, "1m") {
        IntervalParam::I1m
    } else if str_eq(token, "2m") {
        IntervalParam::I2m
    } else if str_eq(token, "5m") {
        IntervalParam::I5m
    } else if str_eq(token, "15m") {
        IntervalParam::I15m
    } else if str_eq(token, "30m") {
        IntervalParam::I30m
    } else if str_eq(token, "90m") {
        IntervalParam::I90m
    } else if str_eq(token, "60m") || str_eq(token, "1h") {
        IntervalParam::I1h
    } else if str_eq(token, "1d") {
        IntervalParam::D1
    } else if str_eq(token, "5d") {
        IntervalParam::D5
    } else if str_eq(token, "1wk") {
        IntervalParam::W1
    } else if str_eq(token, "1mo") {
        IntervalParam::M1
    } else if str_eq(token, "3mo") {
        IntervalParam::M3
    } else {
        IntervalParam::D1
    }
}

/// The fetch parameters of a history call: the period and interval tokens
/// are optional, and an absent one is read as its documented default token
/// (`"1mo"` and `"1d"` respectively) before mapping.
pub fn history_params(period: Option<&str>, interval: Option<&str>) -> (r: (
    RangeParam,
    IntervalParam,
))
    ensures
        r.0 == spec_map_period(
            match period {
                Some(p) => p@,
                None => "1mo"@,
            },
        ),
        r.1 == spec_map_interval(
            match interval {
                Some(i) => i@,
                None => "1d"@,
            },
        ),
{
    let range = match period {
        Some(p) => map_period(p),
        None => map_period("1mo"),
    };
    let granularity = match interval {
        Some(i) => map_interval(i),
        None => map_interval("1d"),
    };
    (range, granularity)
}

/// Every period token outside the recognized vocabulary maps to the same
/// parameter as the default token `"1mo"`.
pub proof fn lemma_unrecognized_period_maps_to_default(s: Seq<char>)
    requires
        !period_recognized(s),
    ensures
        spec_map_period(s) == spec_map_period("1mo"@),
{
    reveal_strlit("1d");
    reveal_strlit("5d");
    reveal_strlit("1mo");
    assert("1mo"@.len() == 3);
    assert("1d"@.len() == 2);
    assert("5d"@.len() == 2);
}

/// Every interval token outside the recognized vocabulary maps to the same
/// parameter as the default token `"1d"`, and `"60m"` and `"1h"` map to the
/// identical parameter.
pub proof fn lemma_unrecognized_interval_maps_to_default(s: Seq<char>)
    requires
        !interval_recognized(s),
    ensures
        spec_map_interval(s) == spec_map_interval("1d"@),
        spec_map_interval("60m"@) == spec_map_interval("1h"@),
{
    reveal_strlit("1m");
    reveal_strlit("2m");
    reveal_strlit("5m");
    reveal_strlit("15m");
    reveal_strlit("30m");
    reveal_strlit("90m");
    reveal_strlit("60m");
    reveal_strlit("1h");
    reveal_strlit("1d");
    assert("1m"@.len() == 2);
    assert("2m"@.len() == 2);
    assert("5m"@.len() == 2);
    assert("15m"@.len() == 3);
    assert("30m"@.len() == 3);
    assert("90m"@.len() == 3);
    assert("60m"@.len() == 3);
    assert("1h"@.len() == 2);
    assert("1d"@.len() == 2);
    assert("1d"@[0] == '1' && "1d"@[1] == 'd');
    assert("1m"@[0] == '1' && "1m"@[1] == 'm');
    assert("2m"@[0] == '2');
    assert("5m"@[0] == '5');
    assert("1h"@[0] == '1' && "1h"@[1] == 'h');
    assert("15m"@[0] == '1');
    assert("30m"@[0] == '3');
    assert("90m"@[0] == '9');
    assert("60m"@[0] == '6');
}

} // verus!
