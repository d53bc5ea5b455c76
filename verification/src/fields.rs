//! Key/value projections: the info, fast-info, earnings and calendar
//! mappings.  Every mapping is an ordered list of key/value entries.  A key
//! appears exactly when its source value is present — absent source fields
//! are omitted, never rendered as a null.  The info, fast-info and earnings
//! mappings open with a `symbol` entry equal to the ticker's symbol; the
//! calendar mapping carries none.

use vstd::prelude::*;

verus! {

/// A value of a key/value mapping: rendered text, an unsigned count, or a
/// list of rendered texts.
#[derive(Debug, PartialEq, Eq)]
pub enum FieldValue {
    Text(String),
    UInt(u64),
    TextList(Vec<String>),
}

/// The mathematical value of a `FieldValue`.
pub enum FieldValueView {
    Text(Seq<char>),
    UInt(u64),
    TextList(Seq<Seq<char>>),
}

impl View for FieldValue {
    type V = FieldValueView;

    open spec fn view(&self) -> FieldValueView {
        match self {
            FieldValue::Text(s) => FieldValueView::Text(s@),
            FieldValue::UInt(u) => FieldValueView::UInt(*u),
            FieldValue::TextList(v) => FieldValueView::TextList(v.deep_view()),
        }
    }
}

/// The mathematical value of an entry list.
pub open spec fn entries_view(entries: Seq<(String, FieldValue)>) -> Seq<
    (Seq<char>, FieldValueView),
> {
    entries.map_values(|e: (String, FieldValue)| (e.0@, e.1@))
}

/// The entries contributed by an optional text field: one entry when the
/// source value is present, none when it is absent.
pub open spec fn text_entry(key: Seq<char>, field: Option<String>) -> Seq<
    (Seq<char>, FieldValueView),
> {
    match field {
        Some(s) => seq![(key, FieldValueView::Text(s@))],
        None => seq![],
    }
}

/// The entries contributed by an optional unsigned field.
pub open spec fn uint_entry(key: Seq<char>, field: Option<u64>) -> Seq<
    (Seq<char>, FieldValueView),
> {
    match field {
        Some(u) => seq![(key, FieldValueView::UInt(u))],
        None => seq![],
    }
}

/// The source fields of the info mapping, every one optional and already
/// rendered to plain text or a plain count by the caller.
#[derive(Debug, PartialEq, Eq)]
pub struct InfoData {
    pub name: Option<String>,
    pub isin: Option<String>,
    pub exchange: Option<String>,
    pub market_state: Option<String>,
    pub currency: Option<String>,
    pub last_price: Option<String>,
    pub open_price: Option<String>,
    pub day_high: Option<String>,
    pub day_low: Option<String>,
    pub previous_close: Option<String>,
    pub volume: Option<u64>,
    pub average_volume: Option<u64>,
    pub market_cap: Option<String>,
    pub shares_outstanding: Option<u64>,
    pub eps_ttm: Option<String>,
    pub pe_ttm: Option<String>,
    pub dividend_yield: Option<String>,
    pub fifty_two_week_low: Option<String>,
    pub fifty_two_week_high: Option<String>,
}

impl InfoData {
    /// Every source field is absent.
    pub open spec fn all_absent(self) -> bool {
        &&& self.name is None
        &&& self.isin is None
        &&& self.exchange is None
        &&& self.market_state is None
        &&& self.currency is None
        &&& self.last_price is None
        &&& self.open_price is None
        &&& self.day_high is None
        &&& self.day_low is None
        &&& self.previous_close is None
        &&& self.volume is None
        &&& self.average_volume is None
        &&& self.market_cap is None
        &&& self.shares_outstanding is None
        &&& self.eps_ttm is None
        &&& self.pe_ttm is None
        &&& self.dividend_yield is None
        &&& self.fifty_two_week_low is None
        &&& self.fifty_two_week_high is None
    }

    /// An info source with every field absent.
    pub fn empty() -> (r: InfoData)
        ensures
            r.all_absent(),
    {
        InfoData {
            name: None,
            isin: None,
            exchange: None,
            market_state: None,
            currency: None,
            last_price: None,
            open_price: None,
            day_high: None,
            day_low: None,
            previous_close: None,
            volume: None,
            average_volume: None,
            market_cap: None,
            shares_outstanding: None,
            eps_ttm: None,
            pe_ttm: None,
            dividend_yield: None,
            fifty_two_week_low: None,
            fifty_two_week_high: None,
        }
    }
}

/// The whole info mapping of a symbol and its source fields: the `symbol`
/// entry first, then one entry per present source field, in the fixed key
/// order of the external contract.
pub open spec fn info_entries(symbol: Seq<char>, info: InfoData) -> Seq<
    (Seq<char>, FieldValueView),
> {
    seq![("symbol"@, FieldValueView::Text(symbol))] + text_entry("shortName"@, info.name)
        + text_entry("isin"@, info.isin) + text_entry("exchange"@, info.exchange) + text_entry(
        "marketState"@,
        info.market_state,
    ) + text_entry("currency"@, info.currency) + text_entry("regularMarketPrice"@, info.last_price)
        + text_entry("regularMarketOpen"@, info.open_price) + text_entry(
        "regularMarketDayHigh"@,
        info.day_high,
    ) + text_entry("regularMarketDayLow"@, info.day_low) + text_entry(
        "regularMarketPreviousClose"@,
        info.previous_close,
    ) + uint_entry("regularMarketVolume"@, info.volume) + uint_entry(
        "averageVolume"@,
        info.average_volume,
    ) + text_entry("marketCap"@, info.market_cap) + uint_entry(
        "sharesOutstanding"@,
        info.shares_outstanding,
    ) + text_entry("trailingEps"@, info.eps_ttm) + text_entry("trailingPE"@, info.pe_ttm)
        + text_entry("dividendYield"@, info.dividend_yield) + text_entry(
        "fiftyTwoWeekLow"@,
        info.fifty_two_week_low,
    ) + text_entry("fiftyTwoWeekHigh"@, info.fifty_two_week_high)
}

/// Append the entry of one optional text field.
fn push_text(entries: &mut Vec<(String, FieldValue)>, key: &str, field: &Option<String>)
    ensures
        entries_view(final(entries)@) == entries_view(old(entries)@) + text_entry(key@, *field),
{
    proof {
        assert(entries_view(entries@).len() == entries@.len());
    }
    match field {
        Some(s) => {
            let ghost pre = entries@;
            entries.push((key.to_owned(), FieldValue::Text(s.clone())));
            proof {
                assert(entries_view(entries@) =~= entries_view(pre) + text_entry(key@, *field));
            }
        },
        None => {
            proof {
                assert(entries_view(entries@) =~= entries_view(entries@) + text_entry(
                    key@,
                    *field,
                ));
            }
        },
    }
}

/// Append the entry of one optional unsigned field.
fn push_uint(entries: &mut Vec<(String, FieldValue)>, key: &str, field: &Option<u64>)
    ensures
        entries_view(final(entries)@) == entries_view(old(entries)@) + uint_entry(key@, *field),
{
    proof {
        assert(entries_view(entries@).len() == entries@.len());
    }
    match field {
        Some(u) => {
            let ghost pre = entries@;
            entries.push((key.to_owned(), FieldValue::UInt(*u)));
            proof {
                assert(entries_view(entries@) =~= entries_view(pre) + uint_entry(key@, *field));
            }
        },
        None => {
            proof {
                assert(entries_view(entries@) =~= entries_view(entries@) + uint_entry(
                    key@,
                    *field,
                ));
            }
        },
    }
}

/// Build the info mapping of a symbol from its source fields: entries in
/// the fixed key order, one per present field, the `symbol` entry first.
pub fn build_info_entries(symbol: &String, info: &InfoData) -> (r: Vec<(String, FieldValue)>)
    ensures
        entries_view(r@) == info_entries(symbol@, *info),
{
    let mut entries: Vec<(String, FieldValue)> = Vec::new();
    entries.push(("symbol".to_owned(), FieldValue::Text(symbol.clone())));
    proof {
        assert(entries_view(entries@) =~= seq![("symbol"@, FieldValueView::Text(symbol@))]);
    }
    push_text(&mut entries, "shortName", &info.name);
    push_text(&mut entries, "isin", &info.isin);
    push_text(&mut entries, "exchange", &info.exchange);
    push_text(&mut entries, "marketState", &info.market_state);
    push_text(&mut entries, "currency", &info.currency);
    push_text(&mut entries, "regularMarketPrice", &info.last_price);
    push_text(&mut entries, "regularMarketOpen", &info.open_price);
    push_text(&mut entries, "regularMarketDayHigh", &info.day_high);
    push_text(&mut entries, "regularMarketDayLow", &info.day_low);
    push_text(&mut entries, "regularMarketPreviousClose", &info.previous_close);
    push_uint(&mut entries, "regularMarketVolume", &info.volume);
    push_uint(&mut entries, "averageVolume", &info.average_volume);
    push_text(&mut entries, "marketCap", &info.market_cap);
    push_uint(&mut entries, "sharesOutstanding", &info.shares_outstanding);
    push_text(&mut entries, "trailingEps", &info.eps_ttm);
    push_text(&mut entries, "trailingPE", &info.pe_ttm);
    push_text(&mut entries, "dividendYield", &info.dividend_yield);
    push_text(&mut entries, "fiftyTwoWeekLow", &info.fifty_two_week_low);
    push_text(&mut entries, "fiftyTwoWeekHigh", &info.fifty_two_week_high);
    entries
}

/// The source fields of the fast-info mapping.
#[derive(Debug, PartialEq, Eq)]
pub struct FastInfoData {
    pub name: Option<String>,
    pub exchange: Option<String>,
    pub currency: Option<String>,
    pub volume: Option<u64>,
}

/// The whole fast-info mapping of a symbol and its source fields.
pub open spec fn fast_info_entries(symbol: Seq<char>, info: FastInfoData) -> Seq<
    (Seq<char>, FieldValueView),
> {
    seq![("symbol"@, FieldValueView::Text(symbol))] + text_entry("name"@, info.name) + text_entry(
        "exchange"@,
        info.exchange,
    ) + text_entry("currency"@, info.currency) + uint_entry("volume"@, info.volume)
}

/// Build the fast-info mapping of a symbol from its source fields.
pub fn build_fast_info_entries(symbol: &String, info: &FastInfoData) -> (r: Vec<
    (String, FieldValue),
>)
    ensures
        entries_view(r@) == fast_info_entries(symbol@, *info),
{
    let mut entries: Vec<(String, FieldValue)> = Vec::new();
    entries.push(("symbol".to_owned(), FieldValue::Text(symbol.clone())));
    proof {
        assert(entries_view(entries@) =~= seq![("symbol"@, FieldValueView::Text(symbol@))]);
    }
    push_text(&mut entries, "name", &info.name);
    push_text(&mut entries, "exchange", &info.exchange);
    push_text(&mut entries, "currency", &info.currency);
    push_uint(&mut entries, "volume", &info.volume);
    entries
}

/// The earnings mapping: the symbol and the three row counts, always all
/// four entries, counts only and never the underlying rows.
pub open spec fn earnings_entries(
    symbol: Seq<char>,
    yearly: u64,
    quarterly: u64,
    quarterly_eps: u64,
) -> Seq<(Seq<char>, FieldValueView)> {
    seq![
        ("symbol"@, FieldValueView::Text(symbol)),
        ("yearly_count"@, FieldValueView::UInt(yearly)),
        ("quarterly_count"@, FieldValueView::UInt(quarterly)),
        ("quarterly_eps_count"@, FieldValueView::UInt(quarterly_eps)),
    ]
}

/// Build the earnings mapping of a symbol from the three row counts.
pub fn build_earnings_entries(
    symbol: &String,
    yearly_count: usize,
    quarterly_count: usize,
    quarterly_eps_count: usize,
) -> (r: Vec<(String, FieldValue)>)
    ensures
        entries_view(r@) == earnings_entries(
            symbol@,
            yearly_count as u64,
            quarterly_count as u64,
            quarterly_eps_count as u64,
        ),
{
    let mut entries: Vec<(String, FieldValue)> = Vec::new();
    entries.push(("symbol".to_owned(), FieldValue::Text(symbol.clone())));
    entries.push(("yearly_count".to_owned(), FieldValue::UInt(yearly_count as u64)));
    entries.push(("quarterly_count".to_owned(), FieldValue::UInt(quarterly_count as u64)));
    entries.push(("quarterly_eps_count".to_owned(), FieldValue::UInt(quarterly_eps_count as u64)));
    proof {
        assert(entries_view(entries@) =~= earnings_entries(
            symbol@,
            yearly_count as u64,
            quarterly_count as u64,
            quarterly_eps_count as u64,
        ));
    }
    entries
}

/// Copy a list of rendered texts.
fn clone_strings(v: &Vec<String>) -> (r: Vec<String>)
    ensures
        r.deep_view() == v.deep_view(),
{
    let mut r: Vec<String> = Vec::new();
    let mut idx: usize = 0;
    while idx < v.len()
        invariant
            idx <= v@.len(),
            r.deep_view() == v@.take(idx as int).map_values(|s: String| s@),
        decreases v@.len() - idx,
    {
        let x = v[idx].clone();
        proof {
            assert(r.deep_view().len() == idx);
        }
        let ghost pre = r@;
        r.push(x);
        idx = idx + 1;
        proof {
            let j: int = idx as int - 1;
            assert(v@.take(j + 1) =~= v@.take(j).push(v@[j]));
            assert forall|k: int| 0 <= k < r@.len() implies r.deep_view()[k] == v@.take(
                idx as int,
            ).map_values(|s: String| s@)[k] by {
                if k < j {
                    assert(pre[k]@ == v@.take(j).map_values(|s: String| s@)[k]);
                    assert(v@.take(j)[k] == v@[k]);
                } else {
                    assert(r@[k] == v@[j]);
                }
            }
            assert(r.deep_view() =~~= v@.take(idx as int).map_values(|s: String| s@));
        }
    }
    proof {
        assert(v@.take(v@.len() as int) =~= v@);
        assert(r.deep_view() =~~= v.deep_view());
    }
    r
}

/// The calendar mapping: the earnings-date list (always present, possibly
/// empty) and the two optional dividend dates.  This mapping carries no
/// `symbol` entry.
pub open spec fn calendar_entries(
    earnings_dates: Seq<Seq<char>>,
    ex_dividend_date: Option<String>,
    dividend_payment_date: Option<String>,
) -> Seq<(Seq<char>, FieldValueView)> {
    seq![
        ("earningsDates"@, FieldValueView::TextList(earnings_dates)),
    ] + text_entry("exDividendDate"@, ex_dividend_date) + text_entry(
        "dividendDate"@,
        dividend_payment_date,
    )
}

/// Build the calendar mapping from its source fields.
pub fn build_calendar_entries(
    earnings_dates: &Vec<String>,
    ex_dividend_date: &Option<String>,
    dividend_payment_date: &Option<String>,
) -> (r: Vec<(String, FieldValue)>)
    ensures
        entries_view(r@) == calendar_entries(
            earnings_dates.deep_view(),
            *ex_dividend_date,
            *dividend_payment_date,
        ),
{
    let mut entries: Vec<(String, FieldValue)> = Vec::new();
    let dates = clone_strings(earnings_dates);
    entries.push(("earningsDates".to_owned(), FieldValue::TextList(dates)));
    proof {
        assert(entries_view(entries@) =~= seq![
            ("earningsDates"@, FieldValueView::TextList(earnings_dates.deep_view())),
        ]);
    }
    push_text(&mut entries, "exDividendDate", ex_dividend_date);
    push_text(&mut entries, "dividendDate", dividend_payment_date);
    entries
}


/// An entry of the info mapping is justified: it is the `symbol` entry, or
/// its key belongs to a present source field and its value is that field's.
pub open spec fn info_entry_justified(
    e: (Seq<char>, FieldValueView),
    symbol: Seq<char>,
    info: InfoData,
) -> bool {
    ||| e == ("symbol"@, FieldValueView::Text(symbol))
    ||| (info.name matches Some(s) && e == ("shortName"@, FieldValueView::Text(s@)))
    ||| (info.isin matches Some(s) && e == ("isin"@, FieldValueView::Text(s@)))
    ||| (info.exchange matches Some(s) && e == ("exchange"@, FieldValueView::Text(s@)))
    ||| (info.market_state matches Some(s) && e == ("marketState"@, FieldValueView::Text(s@)))
    ||| (info.currency matches Some(s) && e == ("currency"@, FieldValueView::Text(s@)))
    ||| (info.last_price matches Some(s) && e == ("regularMarketPrice"@, FieldValueView::Text(s@)))
    ||| (info.open_price matches Some(s) && e == ("regularMarketOpen"@, FieldValueView::Text(s@)))
    ||| (info.day_high matches Some(s) && e == (
        "regularMarketDayHigh"@,
        FieldValueView::Text(s@),
    ))
    ||| (info.day_low matches Some(s) && e == ("regularMarketDayLow"@, FieldValueView::Text(s@)))
    ||| (info.previous_close matches Some(s) && e == (
        "regularMarketPreviousClose"@,
        FieldValueView::Text(s@),
    ))
    ||| (info.volume matches Some(u) && e == ("regularMarketVolume"@, FieldValueView::UInt(u)))
    ||| (info.average_volume matches Some(u) && e == ("averageVolume"@, FieldValueView::UInt(u)))
    ||| (info.market_cap matches Some(s) && e == ("marketCap"@, FieldValueView::Text(s@)))
    ||| (info.shares_outstanding matches Some(u) && e == (
        "sharesOutstanding"@,
        FieldValueView::UInt(u),
    ))
    ||| (info.eps_ttm matches Some(s) && e == ("trailingEps"@, FieldValueView::Text(s@)))
    ||| (info.pe_ttm matches Some(s) && e == ("trailingPE"@, FieldValueView::Text(s@)))
    ||| (info.dividend_yield matches Some(s) && e == ("dividendYield"@, FieldValueView::Text(s@)))
    ||| (info.fifty_two_week_low matches Some(s) && e == (
        "fiftyTwoWeekLow"@,
        FieldValueView::Text(s@),
    ))
    ||| (info.fifty_two_week_high matches Some(s) && e == (
        "fiftyTwoWeekHigh"@,
        FieldValueView::Text(s@),
    ))
}

/// A concatenation keeps a property that holds of every element of both
/// parts.
proof fn lemma_all_entries_concat<A>(a: Seq<A>, b: Seq<A>, p: spec_fn(A) -> bool)
    requires
        forall|i: int| 0 <= i < a.len() ==> p(#[trigger] a[i]),
        forall|i: int| 0 <= i < b.len() ==> p(#[trigger] b[i]),
    ensures
        forall|i: int| 0 <= i < (a + b).len() ==> p(#[trigger] (a + b)[i]),
{
    assert forall|i: int| 0 <= i < (a + b).len() implies p((a + b)[i]) by {
        if i < a.len() {
            assert((a + b)[i] == a[i]);
        } else {
            assert((a + b)[i] == b[i - a.len()]);
        }
    }
}

/// The info mapping never carries a key whose source value is absent, and
/// it always opens with the `symbol` entry of the ticker's symbol: each of
/// its entries is justified by the symbol or by a present source field.
pub proof fn lemma_info_entries_justified(symbol: Seq<char>, info: InfoData)
    ensures
        info_entries(symbol, info).len() >= 1,
        info_entries(symbol, info)[0] == ("symbol"@, FieldValueView::Text(symbol)),
        forall|i: int|
            0 <= i < info_entries(symbol, info).len() ==> info_entry_justified(
                #[trigger] info_entries(symbol, info)[i],
                symbol,
                info,
            ),
{
    let p = |e: (Seq<char>, FieldValueView)| info_entry_justified(e, symbol, info);
    let s0 = seq![("symbol"@, FieldValueView::Text(symbol))];
    assert(forall|i: int| 0 <= i < s0.len() ==> p(#[trigger] s0[i]));

    assert(forall|i: int| 0 <= i < text_entry("shortName"@, info.name).len() ==> p(#[trigger] text_entry("shortName"@, info.name)[i]));
    lemma_all_entries_concat(s0, text_entry("shortName"@, info.name), p);
    let s1 = s0 + text_entry("shortName"@, info.name);
    assert(s1[0] == s0[0]);

    assert(forall|i: int| 0 <= i < text_entry("isin"@, info.isin).len() ==> p(#[trigger] text_entry("isin"@, info.isin)[i]));
    lemma_all_entries_concat(s1, text_entry("isin"@, info.isin), p);
    let s2 = s1 + text_entry("isin"@, info.isin);
    assert(s2[0] == s0[0]);

    assert(forall|i: int| 0 <= i < text_entry("exchange"@, info.exchange).len() ==> p(#[trigger] text_entry("exchange"@, info.exchange)[i]));
    lemma_all_entries_concat(s2, text_entry("exchange"@, info.exchange), p);
    let s3 = s2 + text_entry("exchange"@, info.exchange);
    assert(s3[0] == s0[0]);

    assert(forall|i: int| 0 <= i < text_entry("marketState"@, info.market_state).len() ==> p(#[trigger] text_entry("marketState"@, info.market_state)[i]));
    lemma_all_entries_concat(s3, text_entry("marketState"@, info.market_state), p);
    let s4 = s3 + text_entry("marketState"@, info.market_state);
    assert(s4[0] == s0[0]);

    assert(forall|i: int| 0 <= i < text_entry("currency"@, info.currency).len() ==> p(#[trigger] text_entry("currency"@, info.currency)[i]));
    lemma_all_entries_concat(s4, text_entry("currency"@, info.currency), p);
    let s5 = s4 + text_entry("currency"@, info.currency);
    assert(s5[0] == s0[0]);

    assert(forall|i: int| 0 <= i < text_entry("regularMarketPrice"@, info.last_price).len() ==> p(#[trigger] text_entry("regularMarketPrice"@, info.last_price)[i]));
    lemma_all_entries_concat(s5, text_entry("regularMarketPrice"@, info.last_price), p);
    let s6 = s5 + text_entry("regularMarketPrice"@, info.last_price);
    assert(s6[0] == s0[0]);

    assert(forall|i: int| 0 <= i < text_entry("regularMarketOpen"@, info.open_price).len() ==> p(#[trigger] text_entry("regularMarketOpen"@, info.open_price)[i]));
    lemma_all_entries_concat(s6, text_entry("regularMarketOpen"@, info.open_price), p);
    let s7 = s6 + text_entry("regularMarketOpen"@, info.open_price);
    assert(s7[0] == s0[0]);

    assert(forall|i: int| 0 <= i < text_entry("regularMarketDayHigh"@, info.day_high).len() ==> p(#[trigger] text_entry("regularMarketDayHigh"@, info.day_high)[i]));
    lemma_all_entries_concat(s7, text_entry("regularMarketDayHigh"@, info.day_high), p);
    let s8 = s7 + text_entry("regularMarketDayHigh"@, info.day_high);
    assert(s8[0] == s0[0]);

    assert(forall|i: int| 0 <= i < text_entry("regularMarketDayLow"@, info.day_low).len() ==> p(#[trigger] text_entry("regularMarketDayLow"@, info.day_low)[i]));
    lemma_all_entries_concat(s8, text_entry("regularMarketDayLow"@, info.day_low), p);
    let s9 = s8 + text_entry("regularMarketDayLow"@, info.day_low);
    assert(s9[0] == s0[0]);

    assert(forall|i: int| 0 <= i < text_entry("regularMarketPreviousClose"@, info.previous_close).len() ==> p(#[trigger] text_entry("regularMarketPreviousClose"@, info.previous_close)[i]));
    lemma_all_entries_concat(s9, text_entry("regularMarketPreviousClose"@, info.previous_close), p);
    let s10 = s9 + text_entry("regularMarketPreviousClose"@, info.previous_close);
    assert(s10[0] == s0[0]);

    assert(forall|i: int| 0 <= i < uint_entry("regularMarketVolume"@, info.volume).len() ==> p(#[trigger] uint_entry("regularMarketVolume"@, info.volume)[i]));
    lemma_all_entries_concat(s10, uint_entry("regularMarketVolume"@, info.volume), p);
    let s11 = s10 + uint_entry("regularMarketVolume"@, info.volume);
    assert(s11[0] == s0[0]);

    assert(forall|i: int| 0 <= i < uint_entry("averageVolume"@, info.average_volume).len() ==> p(#[trigger] uint_entry("averageVolume"@, info.average_volume)[i]));
    lemma_all_entries_concat(s11, uint_entry("averageVolume"@, info.average_volume), p);
    let s12 = s11 + uint_entry("averageVolume"@, info.average_volume);
    assert(s12[0] == s0[0]);

    assert(forall|i: int| 0 <= i < text_entry("marketCap"@, info.market_cap).len() ==> p(#[trigger] text_entry("marketCap"@, info.market_cap)[i]));
    lemma_all_entries_concat(s12, text_entry("marketCap"@, info.market_cap), p);
    let s13 = s12 + text_entry("marketCap"@, info.market_cap);
    assert(s13[0] == s0[0]);

    assert(forall|i: int| 0 <= i < uint_entry("sharesOutstanding"@, info.shares_outstanding).len() ==> p(#[trigger] uint_entry("sharesOutstanding"@, info.shares_outstanding)[i]));
    lemma_all_entries_concat(s13, uint_entry("sharesOutstanding"@, info.shares_outstanding), p);
    let s14 = s13 + uint_entry("sharesOutstanding"@, info.shares_outstanding);
    assert(s14[0] == s0[0]);

    assert(forall|i: int| 0 <= i < text_entry("trailingEps"@, info.eps_ttm).len() ==> p(#[trigger] text_entry("trailingEps"@, info.eps_ttm)[i]));
    lemma_all_entries_concat(s14, text_entry("trailingEps"@, info.eps_ttm), p);
    let s15 = s14 + text_entry("trailingEps"@, info.eps_ttm);
    assert(s15[0] == s0[0]);

    assert(forall|i: int| 0 <= i < text_entry("trailingPE"@, info.pe_ttm).len() ==> p(#[trigger] text_entry("trailingPE"@, info.pe_ttm)[i]));
    lemma_all_entries_concat(s15, text_entry("trailingPE"@, info.pe_ttm), p);
    let s16 = s15 + text_entry("trailingPE"@, info.pe_ttm);
    assert(s16[0] == s0[0]);

    assert(forall|i: int| 0 <= i < text_entry("dividendYield"@, info.dividend_yield).len() ==> p(#[trigger] text_entry("dividendYield"@, info.dividend_yield)[i]));
    lemma_all_entries_concat(s16, text_entry("dividendYield"@, info.dividend_yield), p);
    let s17 = s16 + text_entry("dividendYield"@, info.dividend_yield);
    assert(s17[0] == s0[0]);

    assert(forall|i: int| 0 <= i < text_entry("fiftyTwoWeekLow"@, info.fifty_two_week_low).len() ==> p(#[trigger] text_entry("fiftyTwoWeekLow"@, info.fifty_two_week_low)[i]));
    lemma_all_entries_concat(s17, text_entry("fiftyTwoWeekLow"@, info.fifty_two_week_low), p);
    let s18 = s17 + text_entry("fiftyTwoWeekLow"@, info.fifty_two_week_low);
    assert(s18[0] == s0[0]);

    assert(forall|i: int| 0 <= i < text_entry("fiftyTwoWeekHigh"@, info.fifty_two_week_high).len() ==> p(#[trigger] text_entry("fiftyTwoWeekHigh"@, info.fifty_two_week_high)[i]));
    lemma_all_entries_concat(s18, text_entry("fiftyTwoWeekHigh"@, info.fifty_two_week_high), p);
    let s19 = s18 + text_entry("fiftyTwoWeekHigh"@, info.fifty_two_week_high);
    assert(s19[0] == s0[0]);

    assert(info_entries(symbol, info) == s19);
}


/// An entry of the fast-info mapping is justified: it is the `symbol`
/// entry, or its key belongs to a present source field and its value is
/// that field's.
pub open spec fn fast_info_entry_justified(
    e: (Seq<char>, FieldValueView),
    symbol: Seq<char>,
    info: FastInfoData,
) -> bool {
    ||| e == ("symbol"@, FieldValueView::Text(symbol))
    ||| (info.name matches Some(s) && e == ("name"@, FieldValueView::Text(s@)))
    ||| (info.exchange matches Some(s) && e == ("exchange"@, FieldValueView::Text(s@)))
    ||| (info.currency matches Some(s) && e == ("currency"@, FieldValueView::Text(s@)))
    ||| (info.volume matches Some(u) && e == ("volume"@, FieldValueView::UInt(u)))
}

/// The fast-info mapping never carries a key whose source value is absent,
/// and it always opens with the `symbol` entry of the ticker's symbol.
pub proof fn lemma_fast_info_entries_justified(symbol: Seq<char>, info: FastInfoData)
    ensures
        fast_info_entries(symbol, info).len() >= 1,
        fast_info_entries(symbol, info)[0] == ("symbol"@, FieldValueView::Text(symbol)),
        forall|i: int|
            0 <= i < fast_info_entries(symbol, info).len() ==> fast_info_entry_justified(
                #[trigger] fast_info_entries(symbol, info)[i],
                symbol,
                info,
            ),
{
    let p = |e: (Seq<char>, FieldValueView)| fast_info_entry_justified(e, symbol, info);
    let s0 = seq![("symbol"@, FieldValueView::Text(symbol))];
    assert(forall|i: int| 0 <= i < s0.len() ==> p(#[trigger] s0[i]));
    assert(forall|i: int|
        0 <= i < text_entry("name"@, info.name).len() ==> p(
            #[trigger] text_entry("name"@, info.name)[i],
        ));
    lemma_all_entries_concat(s0, text_entry("name"@, info.name), p);
    let s1 = s0 + text_entry("name"@, info.name);
    assert(forall|i: int|
        0 <= i < text_entry("exchange"@, info.exchange).len() ==> p(
            #[trigger] text_entry("exchange"@, info.exchange)[i],
        ));
    lemma_all_entries_concat(s1, text_entry("exchange"@, info.exchange), p);
    let s2 = s1 + text_entry("exchange"@, info.exchange);
    assert(forall|i: int|
        0 <= i < text_entry("currency"@, info.currency).len() ==> p(
            #[trigger] text_entry("currency"@, info.currency)[i],
        ));
    lemma_all_entries_concat(s2, text_entry("currency"@, info.currency), p);
    let s3 = s2 + text_entry("currency"@, info.currency);
    assert(forall|i: int|
        0 <= i < uint_entry("volume"@, info.volume).len() ==> p(
            #[trigger] uint_entry("volume"@, info.volume)[i],
        ));
    lemma_all_entries_concat(s3, uint_entry("volume"@, info.volume), p);
    let s4 = s3 + uint_entry("volume"@, info.volume);
    assert(s4[0] == s0[0]);
    assert(fast_info_entries(symbol, info) == s4);
}

} // verus!
