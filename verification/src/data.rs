use vstd::prelude::*;

verus! {

/// A text to type and where it comes from.
#[derive(Debug, Clone, PartialEq, PartialOrd)]
pub struct Data {
    pub text: String,
    pub source: String,
}

/// What a data provider is asked for before a test starts.
#[derive(Debug, Clone, Copy, PartialEq, Eq, Structural)]
pub enum DataRequest {
    /// One quote, drawn at random.
    RandomQuote,
    /// The given number of words, drawn at random.
    RandomWords(usize),
}

} // verus!
