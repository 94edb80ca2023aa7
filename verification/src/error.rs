//! The three ways in which the bridge can fail.

use vstd::prelude::*;

verus! {

/// A text could not be decoded as a record.
#[derive(Debug)]
pub enum DecodeError {
    /// The text is not one JSON object. Holds the parser's message.
    Malformed(String),
    /// The object lacks a required field, or holds a value of another type
    /// under its key. Holds the first such key, in the record's field order.
    Field(String),
}

/// A value offered as an event is neither a record nor the JSON text of one.
#[derive(Debug)]
pub struct TypeError {
    pub message: String,
}

/// The encoder failed on a record. Holds the encoder's message.
#[derive(Debug)]
pub struct SerializationError {
    pub message: String,
}

/// The message of every [`TypeError`].
pub open spec fn type_error_text() -> Seq<char> {
    "value is not a Person, Auction, Bid, or matching JSON"@
}

impl TypeError {
    /// The error for a value that matches none of the three records.
    pub fn no_match() -> (r: TypeError)
        ensures
            r.message@ == type_error_text(),
    {
        TypeError { message: "value is not a Person, Auction, Bid, or matching JSON".to_owned() }
    }
}

} // verus!
