//! The library's error type.

use vstd::prelude::*;

verus! {

/// Why an operation of the library failed.
#[derive(Debug)]
pub enum WatcherError {
    /// The input was rejected; the text says why.
    Invalid(String),
    /// SQLite reported a failure.
    Database(rusqlite::Error),
    /// A result column did not hold the type the query expects.
    Decode,
    /// A query that must return a row returned none.
    NoRows,
}

impl WatcherError {
    /// Whether this error rejected the input with exactly the given text.
    pub open spec fn is_invalid_with(&self, text: Seq<char>) -> bool {
        match self {
            WatcherError::Invalid(message) => message@ == text,
            _ => false,
        }
    }

    /// The failure came from storage rather than from the input.
    pub open spec fn is_storage(&self) -> bool {
        self is Database || self is Decode || self is NoRows
    }

    /// The human-readable text of the error.
    pub fn message(&self) -> (text: String)
        ensures
            match self {
                WatcherError::Invalid(message) => text@ == message@,
                WatcherError::Decode => text@ == "unexpected column type in query result"@,
                WatcherError::NoRows => text@ == "query returned no rows"@,
                WatcherError::Database(_) => true,
            },
    {
        match self {
            WatcherError::Invalid(message) => message.clone(),
            WatcherError::Database(error) => crate::db::sql::error_text(error),
            WatcherError::Decode => String::from_str("unexpected column type in query result"),
            WatcherError::NoRows => String::from_str("query returned no rows"),
        }
    }
}

/// An input rejection with the given text.
pub fn invalid(text: &str) -> (e: WatcherError)
    ensures
        e.is_invalid_with(text@),
{
    WatcherError::Invalid(String::from_str(text))
}

/// An input rejection whose text is `first` followed by `second`.
pub fn invalid2(first: &str, second: &str) -> (e: WatcherError)
    ensures
        e.is_invalid_with(first@ + second@),
{
    let text = String::from_str(first).concat(second);
    WatcherError::Invalid(text)
}

/// An input rejection whose text is `first`, `second` and `third` in turn.
pub fn invalid3(first: &str, second: &str, third: &str) -> (e: WatcherError)
    ensures
        e.is_invalid_with(first@ + second@ + third@),
{
    let text = String::from_str(first).concat(second).concat(third);
    WatcherError::Invalid(text)
}

} // verus!
