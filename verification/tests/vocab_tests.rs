use yfinance_pl::vocab::{history_params, map_interval, map_period, IntervalParam, RangeParam};

#[test]
fn recognized_periods_map_exactly() {
    assert_eq!(map_period("1d"), RangeParam::D1);
    assert_eq!(map_period("5d"), RangeParam::D5);
    assert_eq!(map_period("1mo"), RangeParam::M1);
    assert_eq!(map_period("3mo"), RangeParam::M3);
    assert_eq!(map_period("6mo"), RangeParam::M6);
    assert_eq!(map_period("1y"), RangeParam::Y1);
    assert_eq!(map_period("2y"), RangeParam::Y2);
    assert_eq!(map_period("5y"), RangeParam::Y5);
    assert_eq!(map_period("10y"), RangeParam::Y10);
    assert_eq!(map_period("ytd"), RangeParam::Ytd);
    assert_eq!(map_period("max"), RangeParam::Max);
}

#[test]
fn unrecognized_period_maps_to_one_month_default() {
    assert_eq!(map_period("7d"), map_period("1mo"));
    assert_eq!(map_period(""), map_period("1mo"));
    assert_eq!(map_period("1MO"), map_period("1mo"));
    assert_eq!(map_period("week"), RangeParam::M1);
}

#[test]
fn recognized_intervals_map_exactly() {
    assert_eq!(map_interval("1m"), IntervalParam::I1m);
    assert_eq!(map_interval("2m"), IntervalParam::I2m);
    assert_eq!(map_interval("5m"), IntervalParam::I5m);
    assert_eq!(map_interval("15m"), IntervalParam::I15m);
    assert_eq!(map_interval("30m"), IntervalParam::I30m);
    assert_eq!(map_interval("90m"), IntervalParam::I90m);
    assert_eq!(map_interval("1d"), IntervalParam::D1);
    assert_eq!(map_interval("5d"), IntervalParam::D5);
    assert_eq!(map_interval("1wk"), IntervalParam::W1);
    assert_eq!(map_interval("1mo"), IntervalParam::M1);
    assert_eq!(map_interval("3mo"), IntervalParam::M3);
}

#[test]
fn sixty_minutes_and_one_hour_are_identical() {
    assert_eq!(map_interval("60m"), IntervalParam::I1h);
    assert_eq!(map_interval("1h"), IntervalParam::I1h);
    assert_eq!(map_interval("60m"), map_interval("1h"));
}

#[test]
fn unrecognized_interval_maps_to_one_day_default() {
    assert_eq!(map_interval("2h"), map_interval("1d"));
    assert_eq!(map_interval(""), map_interval("1d"));
    assert_eq!(map_interval("45m"), IntervalParam::D1);
}

#[test]
fn history_params_apply_documented_defaults() {
    assert_eq!(history_params(None, None), (RangeParam::M1, IntervalParam::D1));
    assert_eq!(
        history_params(Some("5y"), Some("1wk")),
        (RangeParam::Y5, IntervalParam::W1)
    );
    assert_eq!(
        history_params(Some("nonsense"), Some("nonsense")),
        (RangeParam::M1, IntervalParam::D1)
    );
}
