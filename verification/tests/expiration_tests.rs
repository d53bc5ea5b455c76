use yfinance_pl::error::TickerError;
use yfinance_pl::expiry::{format_expirations, resolve_expiration};
use yfinance_pl::ticker::Ticker;

#[test]
fn no_date_leaves_selection_to_the_fetch_client() {
    assert_eq!(resolve_expiration(None), Ok(None));
}

#[test]
fn valid_date_converts_to_midnight_utc_timestamp() {
    assert_eq!(resolve_expiration(Some("2024-06-21")), Ok(Some(1718928000)));
    assert_eq!(resolve_expiration(Some("1970-01-01")), Ok(Some(0)));
}

#[test]
fn malformed_date_is_an_input_format_error() {
    let r = resolve_expiration(Some("2024/06/21"));
    assert_eq!(r, Err(TickerError::InputFormat("2024/06/21".to_string())));
    assert!(matches!(
        resolve_expiration(Some("June 21, 2024")),
        Err(TickerError::InputFormat(_))
    ));
    assert!(matches!(
        resolve_expiration(Some("")),
        Err(TickerError::InputFormat(_))
    ));
}

#[test]
fn a_failed_resolution_does_not_affect_a_later_call() {
    let failed = resolve_expiration(Some("not-a-date"));
    assert!(failed.is_err());
    // a later, independent call behaves as if run alone
    assert_eq!(resolve_expiration(Some("2024-06-21")), Ok(Some(1718928000)));
    assert_eq!(resolve_expiration(None), Ok(None));
}

#[test]
fn timestamps_render_as_dates_in_client_order() {
    let rendered = format_expirations(&vec![1718928000, 0, 1719532800]);
    assert_eq!(
        rendered,
        vec![
            "2024-06-21".to_string(),
            "1970-01-01".to_string(),
            "2024-06-28".to_string(),
        ]
    );
}

#[test]
fn rendering_then_resolving_returns_the_same_timestamp() {
    let rendered = format_expirations(&vec![1718928000]);
    assert_eq!(resolve_expiration(Some(rendered[0].as_str())), Ok(Some(1718928000)));
}

#[test]
fn ticker_is_identified_by_its_symbol_only() {
    let t = Ticker::new("AAPL".to_string());
    assert_eq!(t.symbol(), "AAPL");
    assert_eq!(t.repr(), "yfinance.Ticker('AAPL')");
}

#[test]
fn error_messages_carry_their_text() {
    let e = TickerError::Fetch("boom".to_string());
    assert_eq!(e.message(), "boom");
    let e = TickerError::ExecutionContext("no context".to_string());
    assert_eq!(e.message(), "no context");
    let e = TickerError::TableConstruction("length mismatch".to_string());
    assert_eq!(e.message(), "length mismatch");
}
