use yfinance_pl::fields::{
    build_calendar_entries, build_earnings_entries, build_fast_info_entries, build_info_entries,
    FastInfoData, FieldValue, InfoData,
};
use yfinance_pl::project::{major_holders_table, HolderBreakdown};

fn keys(entries: &[(String, FieldValue)]) -> Vec<&str> {
    entries.iter().map(|e| e.0.as_str()).collect()
}

#[test]
fn info_mapping_of_empty_source_is_symbol_only() {
    let entries = build_info_entries(&"AAPL".to_string(), &InfoData::empty());
    assert_eq!(entries.len(), 1);
    assert_eq!(entries[0].0, "symbol");
    assert_eq!(entries[0].1, FieldValue::Text("AAPL".to_string()));
}

#[test]
fn info_mapping_carries_only_present_fields() {
    let mut info = InfoData::empty();
    info.name = Some("Apple Inc.".to_string());
    info.currency = Some("USD".to_string());
    info.volume = Some(123456);
    info.pe_ttm = Some("29.5".to_string());
    let entries = build_info_entries(&"AAPL".to_string(), &info);
    assert_eq!(
        keys(&entries),
        vec!["symbol", "shortName", "currency", "regularMarketVolume", "trailingPE"]
    );
    assert_eq!(entries[1].1, FieldValue::Text("Apple Inc.".to_string()));
    assert_eq!(entries[3].1, FieldValue::UInt(123456));
}

#[test]
fn info_mapping_keeps_the_fixed_key_order() {
    let mut info = InfoData::empty();
    info.fifty_two_week_high = Some("200".to_string());
    info.isin = Some("US0378331005".to_string());
    info.shares_outstanding = Some(1000);
    let entries = build_info_entries(&"AAPL".to_string(), &info);
    assert_eq!(
        keys(&entries),
        vec!["symbol", "isin", "sharesOutstanding", "fiftyTwoWeekHigh"]
    );
}

#[test]
fn fast_info_mapping_carries_only_present_fields() {
    let info = FastInfoData {
        name: Some("Apple Inc.".to_string()),
        exchange: None,
        currency: Some("USD".to_string()),
        volume: None,
    };
    let entries = build_fast_info_entries(&"AAPL".to_string(), &info);
    assert_eq!(keys(&entries), vec!["symbol", "name", "currency"]);
    assert_eq!(entries[0].1, FieldValue::Text("AAPL".to_string()));
}

#[test]
fn fast_info_mapping_always_contains_the_symbol() {
    let info = FastInfoData { name: None, exchange: None, currency: None, volume: None };
    let entries = build_fast_info_entries(&"MSFT".to_string(), &info);
    assert_eq!(entries.len(), 1);
    assert_eq!(entries[0].0, "symbol");
    assert_eq!(entries[0].1, FieldValue::Text("MSFT".to_string()));
}

#[test]
fn earnings_mapping_carries_the_three_counts() {
    let entries = build_earnings_entries(&"AAPL".to_string(), 4, 8, 6);
    assert_eq!(
        keys(&entries),
        vec!["symbol", "yearly_count", "quarterly_count", "quarterly_eps_count"]
    );
    assert_eq!(entries[1].1, FieldValue::UInt(4));
    assert_eq!(entries[2].1, FieldValue::UInt(8));
    assert_eq!(entries[3].1, FieldValue::UInt(6));
}

#[test]
fn calendar_mapping_lists_dates_and_optional_fields() {
    let dates = vec!["2024-07-25".to_string(), "2024-10-24".to_string()];
    let entries = build_calendar_entries(&dates, &Some("2024-08-09".to_string()), &None);
    assert_eq!(keys(&entries), vec!["earningsDates", "exDividendDate"]);
    assert_eq!(entries[0].1, FieldValue::TextList(dates));
    assert_eq!(entries[1].1, FieldValue::Text("2024-08-09".to_string()));
}

#[test]
fn calendar_mapping_keeps_an_empty_date_list() {
    let entries = build_calendar_entries(&Vec::new(), &None, &None);
    assert_eq!(keys(&entries), vec!["earningsDates"]);
    assert_eq!(entries[0].1, FieldValue::TextList(Vec::new()));
}

#[test]
fn major_holders_columns_mirror_the_breakdown_lines() {
    let holders = vec![
        HolderBreakdown {
            category: "% of Shares Held by All Insider".to_string(),
            value: "0.02".to_string(),
        },
        HolderBreakdown {
            category: "% of Shares Held by Institutions".to_string(),
            value: "0.61".to_string(),
        },
    ];
    let table = major_holders_table(&holders);
    assert_eq!(
        table.breakdown,
        vec![
            "% of Shares Held by All Insider".to_string(),
            "% of Shares Held by Institutions".to_string(),
        ]
    );
    assert_eq!(table.value, vec!["0.02".to_string(), "0.61".to_string()]);
}
