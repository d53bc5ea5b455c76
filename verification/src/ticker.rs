//! The ticker handle: an immutable symbol.  Every operation constructs its
//! domain handles fresh from the symbol; nothing is cached or retained
//! across calls, so no two calls ever share state through this type.

use vstd::prelude::*;
use vstd::string::StringExecFns;

verus! {

/// A ticker, identified by its immutable symbol.
#[derive(Debug, PartialEq, Eq)]
pub struct Ticker {
    symbol: String,
}

impl View for Ticker {
    type V = Seq<char>;

    closed spec fn view(&self) -> Seq<char> {
        self.symbol@
    }
}

impl Ticker {
    /// Construct a ticker for a symbol.
    pub fn new(symbol: String) -> (r: Ticker)
        ensures
            r@ == symbol@,
    {
        Ticker { symbol }
    }

    /// The symbol this ticker was constructed with.
    pub fn symbol(&self) -> (r: &String)
        ensures
            r@ == self@,
    {
        &self.symbol
    }

    /// The textual representation: the ticker is identified by its symbol
    /// only.
    pub fn repr(&self) -> (r: String)
        ensures
            r@ == "yfinance.Ticker('"@ + self@ + "')"@,
    {
        let mut r = "yfinance.Ticker('".to_owned();
        r.append(self.symbol.as_str());
        r.append("')");
        r
    }
}

} // verus!
