//! The error kinds of a weather lookup.

use vstd::prelude::*;

verus! {

/// What can end a lookup. Every error is final: nothing is retried, and no partial
/// result is handed out beside it.
#[derive(Clone, Copy, Debug, PartialEq, Eq, Structural)]
pub enum Error {
    /// The request failed on the network, or the service answered with a status
    /// outside 200..=299.
    Request,
    /// The configuration file is missing or cannot be read.
    File,
    /// An answer or the configuration file does not have the expected shape.
    Serialization,
    /// The requested date is not written as `%Y-%m-%d %H:%M:%S`.
    DateTimeParse,
    /// The requested local time does not name one instant.
    InvalidTimezoneTime,
    /// A historical lookup came back empty.
    WeatherNoHistory,
}

impl Error {
    /// The message of each error kind.
    pub open spec fn spec_message(self) -> Seq<char> {
        match self {
            Error::Request => "request error"@,
            Error::File => "io error"@,
            Error::Serialization => "serialization error"@,
            Error::DateTimeParse => "date time parse error"@,
            Error::InvalidTimezoneTime => "invalid timezone time error"@,
            Error::WeatherNoHistory => "no weather history error"@,
        }
    }

    /// The message shown for this error.
    pub fn message(&self) -> (text: String)
        ensures
            text@ == self.spec_message(),
    {
        match self {
            Error::Request => String::from_str("request error"),
            Error::File => String::from_str("io error"),
            Error::Serialization => String::from_str("serialization error"),
            Error::DateTimeParse => String::from_str("date time parse error"),
            Error::InvalidTimezoneTime => String::from_str("invalid timezone time error"),
            Error::WeatherNoHistory => String::from_str("no weather history error"),
        }
    }
}

} // verus!
