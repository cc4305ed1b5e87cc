//! What can go wrong between the library and the store.

use vstd::prelude::*;
use crate::engine::{error_parts, error_parts_of};

verus! {

/// A failed store operation.
#[derive(Debug, PartialEq)]
pub enum StoreError {
    /// The engine refused a statement; code and message are the engine's.
    Database { code: Option<isize>, message: Option<String> },
    /// The row at this position of a result lacks a column of the record or
    /// holds a value of another type there.
    MalformedRow { row: usize },
    /// The parameter at this position of a command cannot be stored so that
    /// it reads back as it is: a text that holds a NUL character, a text or
    /// blob too long for the engine, or a parameter that stands too far back.
    Unstorable { index: usize },
    /// A result has more rows than a sequence can hold.
    TooManyRows,
}

impl StoreError {
    /// The `Database` error with the code and the message of an engine error.
    pub fn from_engine(error: sqlite::Error) -> (e: StoreError)
        ensures
            e matches StoreError::Database { code, message } && code == error_parts_of(error).0
                && match message {
                Some(text) => error_parts_of(error).1 == Some(text@),
                None => error_parts_of(error).1 is None,
            },
    {
        let (code, message) = error_parts(error);
        StoreError::Database { code, message }
    }
}

} // verus!
