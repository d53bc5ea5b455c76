//! Bespoke tabular projection: domain collections without a native
//! row/column capability are projected into fixed, hand-declared column
//! sets.  The exact column names, types and order of these sets are part of
//! the external contract; the field names of the table types here spell
//! them out.  Any construction failure is fatal for the whole call; none of
//! these projections can partially succeed.

use vstd::prelude::*;
use crate::events::{
    Amount, CorporateAction, SplitRatio, dividend_events, split_events,
};

verus! {

/// An event sequence with only the capital-gain events kept, in original
/// order.
pub open spec fn capital_gain_events(events: Seq<CorporateAction>) -> Seq<CorporateAction> {
    events.filter(|e: CorporateAction| e is CapitalGain)
}

/// The timestamp of an event.
pub open spec fn event_ts(e: CorporateAction) -> i64 {
    match e {
        CorporateAction::Dividend { ts, .. } => ts,
        CorporateAction::Split { ts, .. } => ts,
        CorporateAction::CapitalGain { ts, .. } => ts,
    }
}

/// The cash amount of a dividend or capital-gain event.
pub open spec fn event_amount(e: CorporateAction) -> Amount {
    match e {
        CorporateAction::Dividend { amount, .. } => amount,
        CorporateAction::CapitalGain { amount, .. } => amount,
        CorporateAction::Split { .. } => Amount { mantissa: 0, scale: 0 },
    }
}

/// The ratio of a split event.
pub open spec fn event_ratio(e: CorporateAction) -> SplitRatio {
    match e {
        CorporateAction::Split { ratio, .. } => ratio,
        _ => SplitRatio { numerator: 1, denominator: 1 },
    }
}

/// The `date` column of the dividends table.
pub open spec fn dividend_dates(events: Seq<CorporateAction>) -> Seq<i64> {
    dividend_events(events).map_values(|e: CorporateAction| event_ts(e))
}

/// The `dividends` column of the dividends table.
pub open spec fn dividend_amounts(events: Seq<CorporateAction>) -> Seq<Amount> {
    dividend_events(events).map_values(|e: CorporateAction| event_amount(e))
}

/// The `date` column of the splits table.
pub open spec fn split_dates(events: Seq<CorporateAction>) -> Seq<i64> {
    split_events(events).map_values(|e: CorporateAction| event_ts(e))
}

/// The `stock_splits` column of the splits table, as exact ratio parts.
pub open spec fn split_ratios(events: Seq<CorporateAction>) -> Seq<SplitRatio> {
    split_events(events).map_values(|e: CorporateAction| event_ratio(e))
}

/// The `date` column of the capital-gains table.
pub open spec fn capital_gain_dates(events: Seq<CorporateAction>) -> Seq<i64> {
    capital_gain_events(events).map_values(|e: CorporateAction| event_ts(e))
}

/// The `capital_gains` column of the capital-gains table.
pub open spec fn capital_gain_amounts(events: Seq<CorporateAction>) -> Seq<Amount> {
    capital_gain_events(events).map_values(|e: CorporateAction| event_amount(e))
}

/// The dividends table: columns `date` (epoch seconds) and `dividends`
/// (amount per share).
#[derive(Debug, PartialEq)]
pub struct DividendsTable {
    pub date: Vec<i64>,
    pub dividends: Vec<Amount>,
}

/// The splits table: columns `date` (epoch seconds) and `stock_splits`
/// (the split ratio, kept as its exact parts).
#[derive(Debug, PartialEq)]
pub struct SplitsTable {
    pub date: Vec<i64>,
    pub stock_splits: Vec<SplitRatio>,
}

/// The capital-gains table: columns `date` (epoch seconds) and
/// `capital_gains` (distribution amount).
#[derive(Debug, PartialEq)]
pub struct CapitalGainsTable {
    pub date: Vec<i64>,
    pub capital_gains: Vec<Amount>,
}

/// How `dividend_events(s.take(i + 1))` grows from `dividend_events(s.take(i))`.
proof fn lemma_dividend_events_take_step(s: Seq<CorporateAction>, i: int)
    requires
        0 <= i < s.len(),
    ensures
        dividend_events(s.take(i + 1)) == if s[i] is Dividend {
            dividend_events(s.take(i)).push(s[i])
        } else {
            dividend_events(s.take(i))
        },
{
    reveal(Seq::filter);
    assert(s.take(i + 1).drop_last() =~= s.take(i));
    assert(s.take(i + 1).last() == s[i]);
}

/// How `split_events(s.take(i + 1))` grows from `split_events(s.take(i))`.
proof fn lemma_split_events_take_step(s: Seq<CorporateAction>, i: int)
    requires
        0 <= i < s.len(),
    ensures
        split_events(s.take(i + 1)) == if s[i] is Split {
            split_events(s.take(i)).push(s[i])
        } else {
            split_events(s.take(i))
        },
{
    reveal(Seq::filter);
    assert(s.take(i + 1).drop_last() =~= s.take(i));
    assert(s.take(i + 1).last() == s[i]);
}

/// How `capital_gain_events(s.take(i + 1))` grows from
/// `capital_gain_events(s.take(i))`.
proof fn lemma_capital_gain_events_take_step(s: Seq<CorporateAction>, i: int)
    requires
        0 <= i < s.len(),
    ensures
        capital_gain_events(s.take(i + 1)) == if s[i] is CapitalGain {
            capital_gain_events(s.take(i)).push(s[i])
        } else {
            capital_gain_events(s.take(i))
        },
{
    reveal(Seq::filter);
    assert(s.take(i + 1).drop_last() =~= s.take(i));
    assert(s.take(i + 1).last() == s[i]);
}

/// Project the dividend events of a sequence into the dividends table, in
/// original order: one row per dividend event, no other event contributes.
pub fn dividends_table(events: &Vec<CorporateAction>) -> (r: DividendsTable)
    ensures
        r.date@ == dividend_dates(events@),
        r.dividends@ == dividend_amounts(events@),
{
    let mut date: Vec<i64> = Vec::new();
    let mut dividends: Vec<Amount> = Vec::new();
    let mut idx: usize = 0;
    while idx < events.len()
        invariant
            idx <= events@.len(),
            date@ == dividend_dates(events@.take(idx as int)),
            dividends@ == dividend_amounts(events@.take(idx as int)),
        decreases events@.len() - idx,
    {
        let e = events[idx];
        if let CorporateAction::Dividend { ts, amount } = e {
            date.push(ts);
            dividends.push(amount);
        }
        proof {
            lemma_dividend_events_take_step(events@, idx as int);
            assert(date@ =~= dividend_dates(events@.take(idx as int + 1)));
            assert(dividends@ =~= dividend_amounts(events@.take(idx as int + 1)));
        }
        idx = idx + 1;
    }
    proof {
        assert(events@.take(events@.len() as int) =~= events@);
    }
    DividendsTable { date, dividends }
}

/// Project the split events of a sequence into the splits table, in
/// original order: one row per split event, no other event contributes.
pub fn splits_table(events: &Vec<CorporateAction>) -> (r: SplitsTable)
    ensures
        r.date@ == split_dates(events@),
        r.stock_splits@ == split_ratios(events@),
{
    let mut date: Vec<i64> = Vec::new();
    let mut stock_splits: Vec<SplitRatio> = Vec::new();
    let mut idx: usize = 0;
    while idx < events.len()
        invariant
            idx <= events@.len(),
            date@ == split_dates(events@.take(idx as int)),
            stock_splits@ == split_ratios(events@.take(idx as int)),
        decreases events@.len() - idx,
    {
        let e = events[idx];
        if let CorporateAction::Split { ts, ratio } = e {
            date.push(ts);
            stock_splits.push(ratio);
        }
        proof {
            lemma_split_events_take_step(events@, idx as int);
            assert(date@ =~= split_dates(events@.take(idx as int + 1)));
            assert(stock_splits@ =~= split_ratios(events@.take(idx as int + 1)));
        }
        idx = idx + 1;
    }
    proof {
        assert(events@.take(events@.len() as int) =~= events@);
    }
    SplitsTable { date, stock_splits }
}

/// Project the capital-gain events of a sequence into the capital-gains
/// table, in original order: one row per capital-gain event, no other event
/// contributes.
pub fn capital_gains_table(events: &Vec<CorporateAction>) -> (r: CapitalGainsTable)
    ensures
        r.date@ == capital_gain_dates(events@),
        r.capital_gains@ == capital_gain_amounts(events@),
{
    let mut date: Vec<i64> = Vec::new();
    let mut capital_gains: Vec<Amount> = Vec::new();
    let mut idx: usize = 0;
    while idx < events.len()
        invariant
            idx <= events@.len(),
            date@ == capital_gain_dates(events@.take(idx as int)),
            capital_gains@ == capital_gain_amounts(events@.take(idx as int)),
        decreases events@.len() - idx,
    {
        let e = events[idx];
        if let CorporateAction::CapitalGain { ts, amount } = e {
            date.push(ts);
            capital_gains.push(amount);
        }
        proof {
            lemma_capital_gain_events_take_step(events@, idx as int);
            assert(date@ =~= capital_gain_dates(events@.take(idx as int + 1)));
            assert(capital_gains@ =~= capital_gain_amounts(events@.take(idx as int + 1)));
        }
        idx = idx + 1;
    }
    proof {
        assert(events@.take(events@.len() as int) =~= events@);
    }
    CapitalGainsTable { date, capital_gains }
}

/// One major-holder breakdown line: a category label and its value,
/// both already rendered as text.
#[derive(Debug, PartialEq, Eq)]
pub struct HolderBreakdown {
    pub category: String,
    pub value: String,
}

/// The major-holders table: columns `Breakdown` (category text) and `Value`
/// (stringified value), one row per breakdown line, in original order.
#[derive(Debug, PartialEq, Eq)]
pub struct MajorHoldersTable {
    pub breakdown: Vec<String>,
    pub value: Vec<String>,
}

/// The `Breakdown` column of the major-holders table.
pub open spec fn holder_categories(holders: Seq<HolderBreakdown>) -> Seq<Seq<char>> {
    holders.map_values(|h: HolderBreakdown| h.category@)
}

/// The `Value` column of the major-holders table.
pub open spec fn holder_values(holders: Seq<HolderBreakdown>) -> Seq<Seq<char>> {
    holders.map_values(|h: HolderBreakdown| h.value@)
}

/// Project major-holder breakdown lines into the two-column major-holders
/// table, in original order.
pub fn major_holders_table(holders: &Vec<HolderBreakdown>) -> (r: MajorHoldersTable)
    ensures
        r.breakdown.deep_view() == holder_categories(holders@),
        r.value.deep_view() == holder_values(holders@),
{
    let mut breakdown: Vec<String> = Vec::new();
    let mut value: Vec<String> = Vec::new();
    let mut idx: usize = 0;
    while idx < holders.len()
        invariant
            idx <= holders@.len(),
            breakdown.deep_view() == holder_categories(holders@.take(idx as int)),
            value.deep_view() == holder_values(holders@.take(idx as int)),
        decreases holders@.len() - idx,
    {
        let h = &holders[idx];
        let category = h.category.clone();
        let val = h.value.clone();
        proof {
            assert(breakdown.deep_view().len() == idx);
            assert(value.deep_view().len() == idx);
        }
        let ghost pre_breakdown = breakdown@;
        let ghost pre_value = value@;
        breakdown.push(category);
        value.push(val);
        idx = idx + 1;
        proof {
            let j: int = idx as int - 1;
            assert(holders@.take(j + 1) =~= holders@.take(j).push(holders@[j]));
            assert forall|k: int| 0 <= k < breakdown@.len() implies breakdown.deep_view()[k]
                == holder_categories(holders@.take(idx as int))[k] && value.deep_view()[k]
                == holder_values(holders@.take(idx as int))[k] by {
                if k < j {
                    assert(pre_breakdown[k]@ == holder_categories(holders@.take(j))[k]);
                    assert(pre_value[k]@ == holder_values(holders@.take(j))[k]);
                    assert(holders@.take(j)[k] == holders@[k]);
                } else {
                    assert(breakdown@[k] == category);
                    assert(value@[k] == val);
                }
            }
            assert(breakdown.deep_view() =~~= holder_categories(holders@.take(idx as int)));
            assert(value.deep_view() =~~= holder_values(holders@.take(idx as int)));
        }
    }
    proof {
        assert(holders@.take(holders@.len() as int) =~= holders@);
    }
    MajorHoldersTable { breakdown, value }
}

} // verus!
