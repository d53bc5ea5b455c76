use yfinance_pl::events::{merge_actions, Amount, CorporateAction, SplitRatio};
use yfinance_pl::project::{capital_gains_table, dividends_table, splits_table};

fn amount(mantissa: i128, scale: u32) -> Amount {
    Amount { mantissa, scale }
}

#[test]
fn merged_actions_have_one_row_per_dividend_or_split_in_order() {
    let events = vec![
        CorporateAction::Dividend { ts: 100, amount: amount(25, 2) },
        CorporateAction::CapitalGain { ts: 150, amount: amount(10, 2) },
        CorporateAction::Split { ts: 200, ratio: SplitRatio { numerator: 4, denominator: 1 } },
        CorporateAction::Dividend { ts: 300, amount: amount(30, 2) },
        CorporateAction::CapitalGain { ts: 350, amount: amount(5, 2) },
        CorporateAction::Split { ts: 400, ratio: SplitRatio { numerator: 1, denominator: 4 } },
    ];
    let table = merge_actions(&events);
    // two dividends and two splits: exactly four rows, capital gains none
    assert_eq!(table.dates, vec![100, 200, 300, 400]);
    assert_eq!(
        table.dividends,
        vec![Some(amount(25, 2)), None, Some(amount(30, 2)), None]
    );
    assert_eq!(
        table.stock_splits,
        vec![
            None,
            Some(SplitRatio { numerator: 4, denominator: 1 }),
            None,
            Some(SplitRatio { numerator: 1, denominator: 4 }),
        ]
    );
    // each row populates exactly one of the two nullable columns
    for i in 0..table.len() {
        assert_ne!(table.dividends[i].is_some(), table.stock_splits[i].is_some());
    }
}

#[test]
fn merged_actions_keep_same_timestamp_events_unmerged() {
    let events = vec![
        CorporateAction::Dividend { ts: 500, amount: amount(1, 0) },
        CorporateAction::Split { ts: 500, ratio: SplitRatio { numerator: 3, denominator: 2 } },
    ];
    let table = merge_actions(&events);
    assert_eq!(table.dates, vec![500, 500]);
    assert_eq!(table.dividends[0], Some(amount(1, 0)));
    assert_eq!(table.dividends[1], None);
    assert_eq!(table.stock_splits[0], None);
    assert_eq!(
        table.stock_splits[1],
        Some(SplitRatio { numerator: 3, denominator: 2 })
    );
}

#[test]
fn merged_actions_of_no_events_are_empty() {
    let table = merge_actions(&Vec::new());
    assert_eq!(table.len(), 0);
    assert!(table.dates.is_empty());
    assert!(table.dividends.is_empty());
    assert!(table.stock_splits.is_empty());
}

#[test]
fn capital_gains_alone_leave_actions_empty() {
    let events = vec![
        CorporateAction::CapitalGain { ts: 1, amount: amount(7, 1) },
        CorporateAction::CapitalGain { ts: 2, amount: amount(9, 1) },
    ];
    let table = merge_actions(&events);
    assert_eq!(table.len(), 0);
    let gains = capital_gains_table(&events);
    assert_eq!(gains.date, vec![1, 2]);
    assert_eq!(gains.capital_gains, vec![amount(7, 1), amount(9, 1)]);
}

#[test]
fn split_ratio_parts_divide_to_the_expected_float() {
    let events = vec![
        CorporateAction::Split { ts: 1, ratio: SplitRatio { numerator: 1, denominator: 1 } },
        CorporateAction::Split { ts: 2, ratio: SplitRatio { numerator: 3, denominator: 2 } },
        CorporateAction::Split { ts: 3, ratio: SplitRatio { numerator: 1, denominator: 1000 } },
    ];
    let table = splits_table(&events);
    let ratios: Vec<f64> = table
        .stock_splits
        .iter()
        .map(|r| r.numerator as f64 / r.denominator as f64)
        .collect();
    assert_eq!(ratios, vec![1.0, 1.5, 0.001]);
}

#[test]
fn dividends_table_keeps_only_dividends_in_order() {
    let events = vec![
        CorporateAction::Split { ts: 10, ratio: SplitRatio { numerator: 2, denominator: 1 } },
        CorporateAction::Dividend { ts: 20, amount: amount(11, 2) },
        CorporateAction::CapitalGain { ts: 30, amount: amount(99, 2) },
        CorporateAction::Dividend { ts: 40, amount: amount(13, 2) },
    ];
    let table = dividends_table(&events);
    assert_eq!(table.date, vec![20, 40]);
    assert_eq!(table.dividends, vec![amount(11, 2), amount(13, 2)]);
}

#[test]
fn splits_table_keeps_only_splits_in_order() {
    let events = vec![
        CorporateAction::Dividend { ts: 10, amount: amount(11, 2) },
        CorporateAction::Split { ts: 20, ratio: SplitRatio { numerator: 5, denominator: 4 } },
        CorporateAction::Split { ts: 30, ratio: SplitRatio { numerator: 10, denominator: 1 } },
    ];
    let table = splits_table(&events);
    assert_eq!(table.date, vec![20, 30]);
    assert_eq!(table.stock_splits.len(), 2);
    assert_eq!(table.stock_splits[0], SplitRatio { numerator: 5, denominator: 4 });
    assert_eq!(table.stock_splits[1], SplitRatio { numerator: 10, denominator: 1 });
}
