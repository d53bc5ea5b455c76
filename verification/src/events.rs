//! The event merge engine: a sequence of heterogeneous corporate-action
//! events is combined into one aligned table with a timestamp column and one
//! nullable column per event kind.  Each dividend or split event appends
//! exactly one row in original order; capital-gain events contribute no row
//! to this projection (they have a dedicated table of their own).  No
//! sorting, no same-timestamp coalescing and no deduplication happens here.

use vstd::prelude::*;

verus! {

/// A decimal money amount carried through projections without
/// interpretation: an integer mantissa scaled by a negative power of ten
/// (`mantissa * 10^-scale`).
#[derive(Clone, Copy, Debug, PartialEq, Eq)]
pub struct Amount {
    pub mantissa: i128,
    pub scale: u32,
}

/// The new-shares and old-shares parts of a split ratio.  A four-for-one
/// forward split has numerator four and denominator one.
#[derive(Clone, Copy, Debug, PartialEq, Eq)]
pub struct SplitRatio {
    pub numerator: u32,
    pub denominator: u32,
}

impl SplitRatio {
    /// Both parts of a split ratio are positive.
    pub open spec fn wf(self) -> bool {
        self.numerator > 0 && self.denominator > 0
    }
}

/// A corporate-action event, keyed by a Unix epoch-second timestamp.
#[derive(Clone, Copy, Debug, PartialEq, Eq)]
pub enum CorporateAction {
    /// A cash dividend of `amount` per share.
    Dividend { ts: i64, amount: Amount },
    /// A stock split.
    Split { ts: i64, ratio: SplitRatio },
    /// A capital-gain distribution of `amount`.
    CapitalGain { ts: i64, amount: Amount },
}

impl CorporateAction {
    /// Validity of an event: a split carries a ratio with positive parts.
    pub open spec fn wf(self) -> bool {
        match self {
            CorporateAction::Split { ratio, .. } => ratio.wf(),
            _ => true,
        }
    }
}

/// One row of the aligned actions table.  A row originates one-to-one from a
/// real event, so exactly one of the two optional columns is populated.
#[derive(Clone, Copy, Debug, PartialEq, Eq)]
pub struct ActionRow {
    pub ts: i64,
    pub dividend: Option<Amount>,
    pub split: Option<SplitRatio>,
}

/// Exactly one of the two nullable columns of a row is populated.
pub open spec fn one_column(r: ActionRow) -> bool {
    (r.dividend is Some) != (r.split is Some)
}

/// The rows a single event contributes to the aligned table: one row for a
/// dividend or a split, none for a capital gain.
pub open spec fn rows_of(e: CorporateAction) -> Seq<ActionRow> {
    match e {
        CorporateAction::Dividend { ts, amount } => seq![
            ActionRow { ts: ts, dividend: Some(amount), split: None },
        ],
        CorporateAction::Split { ts, ratio } => seq![
            ActionRow { ts: ts, dividend: None, split: Some(ratio) },
        ],
        CorporateAction::CapitalGain { .. } => seq![],
    }
}

/// The single row a retained (dividend or split) event contributes.
pub open spec fn single_row(e: CorporateAction) -> ActionRow {
    rows_of(e)[0]
}

/// Whether an event is retained by the actions projection.
pub open spec fn retained(e: CorporateAction) -> bool {
    !(e is CapitalGain)
}

/// A row carries exactly the payload of the event it originates from.
pub open spec fn row_matches(r: ActionRow, e: CorporateAction) -> bool {
    match e {
        CorporateAction::Dividend { ts, amount } => r.ts == ts && r.dividend == Some(amount)
            && r.split is None,
        CorporateAction::Split { ts, ratio } => r.ts == ts && r.dividend is None && r.split
            == Some(ratio),
        CorporateAction::CapitalGain { .. } => false,
    }
}

/// The aligned table of a whole event sequence: each event's rows, in the
/// original event order.
pub open spec fn merged_rows(events: Seq<CorporateAction>) -> Seq<ActionRow>
    decreases events.len(),
{
    if events.len() == 0 {
        Seq::empty()
    } else {
        merged_rows(events.drop_last()) + rows_of(events.last())
    }
}

/// The dividend events of a sequence, in their original order.
pub open spec fn dividend_events(events: Seq<CorporateAction>) -> Seq<CorporateAction> {
    events.filter(|e: CorporateAction| e is Dividend)
}

/// The split events of a sequence, in their original order.
pub open spec fn split_events(events: Seq<CorporateAction>) -> Seq<CorporateAction> {
    events.filter(|e: CorporateAction| e is Split)
}

/// The number of dividend events in a sequence.
pub open spec fn count_dividends(events: Seq<CorporateAction>) -> nat {
    dividend_events(events).len()
}

/// The number of split events in a sequence.
pub open spec fn count_splits(events: Seq<CorporateAction>) -> nat {
    split_events(events).len()
}

/// The events retained by the actions projection, in their original order.
pub open spec fn retained_events(events: Seq<CorporateAction>) -> Seq<CorporateAction> {
    events.filter(|e: CorporateAction| retained(e))
}

/// One row per retained event, in the original event order.
pub open spec fn rows_of_retained(events: Seq<CorporateAction>) -> Seq<ActionRow> {
    retained_events(events).map_values(|e: CorporateAction| single_row(e))
}

/// The aligned actions table, kept as three parallel columns: a timestamp, a
/// nullable dividend amount and a nullable split ratio per row.
#[derive(Debug, PartialEq)]
pub struct ActionsTable {
    pub dates: Vec<i64>,
    pub dividends: Vec<Option<Amount>>,
    pub stock_splits: Vec<Option<SplitRatio>>,
}

/// The rows spelled by three parallel columns.
pub open spec fn table_rows(
    dates: Seq<i64>,
    dividends: Seq<Option<Amount>>,
    splits: Seq<Option<SplitRatio>>,
) -> Seq<ActionRow> {
    Seq::new(dates.len(), |i: int| ActionRow { ts: dates[i], dividend: dividends[i], split: splits[i] })
}

impl ActionsTable {
    /// The number of rows.
    pub open spec fn spec_len(self) -> nat {
        self.dates@.len()
    }

    /// The rows of the table.
    pub open spec fn rows(self) -> Seq<ActionRow> {
        table_rows(self.dates@, self.dividends@, self.stock_splits@)
    }

    /// The columns have equal length and each row populates exactly one of
    /// the two nullable columns.
    pub open spec fn wf(self) -> bool {
        &&& self.dividends@.len() == self.dates@.len()
        &&& self.stock_splits@.len() == self.dates@.len()
        &&& forall|i: int| 0 <= i < self.spec_len() ==> one_column(#[trigger] self.rows()[i])
    }

    /// The number of rows of the table.
    pub fn len(&self) -> (r: usize)
        ensures
            r == self.spec_len(),
    {
        self.dates.len()
    }
}

/// Combine a sequence of corporate-action events into the aligned actions
/// table: one pass in original order, one new row per dividend or split
/// event, no row for a capital gain.
pub fn merge_actions(events: &Vec<CorporateAction>) -> (r: ActionsTable)
    ensures
        r.dividends@.len() == r.dates@.len(),
        r.stock_splits@.len() == r.dates@.len(),
        r.rows() == merged_rows(events@),
        r.wf(),
{
    let mut dates: Vec<i64> = Vec::new();
    let mut dividends: Vec<Option<Amount>> = Vec::new();
    let mut stock_splits: Vec<Option<SplitRatio>> = Vec::new();
    let mut idx: usize = 0;
    while idx < events.len()
        invariant
            idx <= events@.len(),
            dividends@.len() == dates@.len(),
            stock_splits@.len() == dates@.len(),
            table_rows(dates@, dividends@, stock_splits@) == merged_rows(events@.take(idx as int)),
        decreases events@.len() - idx,
    {
        let e = events[idx];
        match e {
            CorporateAction::Dividend { ts, amount } => {
                dates.push(ts);
                dividends.push(Some(amount));
                stock_splits.push(None);
            },
            CorporateAction::Split { ts, ratio } => {
                dates.push(ts);
                dividends.push(None);
                stock_splits.push(Some(ratio));
            },
            CorporateAction::CapitalGain { .. } => {},
        }
        proof {
            assert(events@.take(idx as int + 1).drop_last() =~= events@.take(idx as int));
            assert(events@.take(idx as int + 1).last() == events@[idx as int]);
            assert(table_rows(dates@, dividends@, stock_splits@) =~= merged_rows(
                events@.take(idx as int + 1),
            ));
        }
        idx = idx + 1;
    }
    proof {
        assert(events@.take(events@.len() as int) =~= events@);
        lemma_merged_rows_shape(events@);
    }
    ActionsTable { dates, dividends, stock_splits }
}

/// The shape of the aligned table, stated of every event sequence: the table
/// has exactly one row per dividend or split event and none for a capital
/// gain; the rows stand in the original relative event order, and each row
/// populates exactly the column of its source event's kind, with the source
/// event's payload.
pub proof fn lemma_merged_rows_shape(events: Seq<CorporateAction>)
    ensures
        merged_rows(events).len() == count_dividends(events) + count_splits(events),
        merged_rows(events) == rows_of_retained(events),
        forall|i: int|
            0 <= i < merged_rows(events).len() ==> one_column(#[trigger] merged_rows(events)[i])
                && row_matches(merged_rows(events)[i], retained_events(events)[i]),
    decreases events.len(),
{
    reveal(Seq::filter);
    if events.len() == 0 {
        assert(merged_rows(events) =~= rows_of_retained(events));
    } else {
        let prefix = events.drop_last();
        let last = events.last();
        lemma_merged_rows_shape(prefix);
        assert(merged_rows(events) == merged_rows(prefix) + rows_of(last));
        if retained(last) {
            assert(retained_events(events) == retained_events(prefix).push(last));
            assert(rows_of_retained(events) =~= rows_of_retained(prefix).push(single_row(last)));
        } else {
            assert(retained_events(events) == retained_events(prefix));
        }
        assert(merged_rows(events) =~= rows_of_retained(events));
        assert forall|i: int| 0 <= i < merged_rows(events).len() implies one_column(
            #[trigger] merged_rows(events)[i],
        ) && row_matches(merged_rows(events)[i], retained_events(events)[i]) by {
            if i < merged_rows(prefix).len() {
                assert(merged_rows(events)[i] == merged_rows(prefix)[i]);
                assert(retained_events(events)[i] == retained_events(prefix)[i]);
            } else {
                assert(merged_rows(events)[i] == rows_of(last)[i - merged_rows(prefix).len()]);
            }
        }
    }
}

} // verus!
