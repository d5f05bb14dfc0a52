use vstd::prelude::*;
use vstd::string::StringExecFns;

use crate::data::{Data, DataRequest};
use crate::text::{decimal, push_decimal};

verus! {

/// The kind of typing test.
#[derive(Debug, Clone, Copy, PartialEq, Eq, Structural)]
pub enum Mode {
    /// Type one quote.
    Quote,
    /// Type the given number of words.
    Words(usize),
    /// Type for the given number of seconds.
    Time(usize),
}

impl Default for Mode {
    fn default() -> (r: Mode)
        ensures
            r == Mode::Quote,
    {
        Mode::Quote
    }
}

/// A timed test preloads four words per second (nobody types faster than 240 wpm).
pub open spec fn time_mode_words(seconds: nat) -> nat {
    seconds * 4
}

/// The request that draws the data of a test in the given mode.
pub open spec fn mode_request(m: Mode) -> DataRequest {
    match m {
        Mode::Quote => DataRequest::RandomQuote,
        Mode::Words(n) => DataRequest::RandomWords(n),
        Mode::Time(t) => DataRequest::RandomWords(time_mode_words(t as nat) as usize),
    }
}

/// The source line shown under a timed test: "`t` seconds".
pub open spec fn seconds_source(t: nat) -> Seq<char> {
    decimal(t) + " seconds"@
}

/// The data of a test in mode `m`, built from what the provider drew.
pub open spec fn mode_data_source(m: Mode, drawn_source: Seq<char>) -> Seq<char> {
    match m {
        Mode::Time(t) => seconds_source(t as nat),
        _ => drawn_source,
    }
}

/// A mode whose data can be requested without overflow.
pub open spec fn mode_request_fits(m: Mode) -> bool {
    match m {
        Mode::Time(t) => time_mode_words(t as nat) <= usize::MAX,
        _ => true,
    }
}

impl Mode {
    /// What must be drawn at random for a test in this mode: a quote, `n`
    /// words, or four words per second of a timed test.
    pub fn data_request(&self) -> (r: DataRequest)
        requires
            mode_request_fits(*self),
        ensures
            r == mode_request(*self),
    {
        match self {
            Mode::Quote => DataRequest::RandomQuote,
            Mode::Words(n) => DataRequest::RandomWords(*n),
            Mode::Time(t) => DataRequest::RandomWords(*t * 4),
        }
    }

    /// The data of a test in this mode, from the data drawn for
    /// [`Mode::data_request`]: a timed test shows "`t` seconds" as its source,
    /// the other modes keep what was drawn.
    pub fn get_data(&self, drawn: Data) -> (r: Data)
        ensures
            r.text@ == drawn.text@,
            r.source@ == mode_data_source(*self, drawn.source@),
    {
        match self {
            Mode::Time(t) => {
                let mut source = String::new();
                push_decimal(&mut source, *t as u64);
                source.append(" seconds");
                Data { text: drawn.text, source }
            },
            _ => drawn,
        }
    }
}

} // verus!
