use vstd::prelude::*;

verus! {

/// The error taxonomy of this layer.  Every failure surfaces synchronously as
/// one of these values carrying a human-readable message; no retries and no
/// partial results exist anywhere in the layer.
#[derive(Debug, PartialEq, Eq)]
pub enum TickerError {
    /// Allocation of the per-call execution context failed; no fetch was
    /// attempted.
    ExecutionContext(String),
    /// The external fetch client failed; the underlying message is carried
    /// as opaque text.
    Fetch(String),
    /// A caller-supplied date failed strict parsing; the call aborted before
    /// any fetch.
    InputFormat(String),
    /// A column set could not be constructed; the call aborted with no
    /// partial output.
    TableConstruction(String),
}

impl TickerError {
    /// The message text carried by the error.
    pub fn message(&self) -> (r: &String)
        ensures
            r@ == self.spec_message(),
    {
        match self {
            TickerError::ExecutionContext(m) => m,
            TickerError::Fetch(m) => m,
            TickerError::InputFormat(m) => m,
            TickerError::TableConstruction(m) => m,
        }
    }

    /// The message text, as a sequence of characters.
    pub open spec fn spec_message(&self) -> Seq<char> {
        match self {
            TickerError::ExecutionContext(m) => m@,
            TickerError::Fetch(m) => m@,
            TickerError::InputFormat(m) => m@,
            TickerError::TableConstruction(m) => m@,
        }
    }
}

} // verus!
