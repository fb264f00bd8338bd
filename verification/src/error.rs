//! The store-side error taxonomy: database failures and codec failures.

use vstd::prelude::*;
use vstd::string::StringExecFns;

verus! {

/// What can go wrong below the handlers: the backing store failed, or a
/// persisted value could not be decoded.
#[derive(Debug)]
pub enum StoreError {
    /// The database reported an error; the field carries its description.
    Db { details: String },
    /// A stored value failed to decode.
    Decode { operation: String, item: String, details: String },
}

impl StoreError {
    /// The textual description of the error, used when it is surfaced as an
    /// internal handler failure.
    pub open spec fn spec_message(self) -> Seq<char> {
        match self {
            StoreError::Db { details } => "DB error: "@ + details@,
            StoreError::Decode { operation, item, details } => "Failed to decode "@ + operation@
                + " "@ + item@ + ": "@ + details@,
        }
    }

    /// Renders the error as one line of text.
    pub fn message(&self) -> (r: String)
        ensures
            r@ == self.spec_message(),
    {
        match self {
            StoreError::Db { details } => {
                let mut m = "DB error: ".to_owned();
                m.append(details.as_str());
                m
            },
            StoreError::Decode { operation, item, details } => {
                let mut m = "Failed to decode ".to_owned();
                m.append(operation.as_str());
                m.append(" ");
                m.append(item.as_str());
                m.append(": ");
                m.append(details.as_str());
                m
            },
        }
    }
}

} // verus!
