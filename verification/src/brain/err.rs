//! The error taxonomy of event handling in the brain.

use vstd::prelude::*;
use vstd::string::StringExecFns;

verus! {

/// Why handling an event or command failed.
#[derive(Debug)]
pub enum ObsError {
    /// Something referenced was not found.
    NotFound(String),
    /// The input was rejected.
    InvalidInput(String),
    /// An I/O operation failed; the rendered message is kept.
    IoError(String),
    IndexOutOfBounds,
    NotFoundPlace,
    NotFoundChannel,
    DisabledChannel,
    UnknownError,
}

/// The rendered message of each error.
pub open spec fn spec_obs_error_message(e: ObsError) -> Seq<char> {
    match e {
        ObsError::NotFound(msg) => "NotFound: "@ + msg@,
        ObsError::InvalidInput(msg) => "InvalidInput: "@ + msg@,
        ObsError::IoError(msg) => "IoError: "@ + msg@,
        ObsError::IndexOutOfBounds => "Index out of bounds"@,
        ObsError::NotFoundPlace => "Place not found"@,
        ObsError::NotFoundChannel => "Channel not found"@,
        ObsError::DisabledChannel => "Channel is disabled"@,
        ObsError::UnknownError => "Unknown error"@,
    }
}

impl ObsError {
    /// A short diagnostic line for the caller.
    pub fn to_message(&self) -> (r: String)
        ensures
            r@ == spec_obs_error_message(*self),
    {
        match self {
            ObsError::NotFound(msg) => {
                let mut r = String::from_str("NotFound: ");
                r.append(msg.as_str());
                r
            },
            ObsError::InvalidInput(msg) => {
                let mut r = String::from_str("InvalidInput: ");
                r.append(msg.as_str());
                r
            },
            ObsError::IoError(msg) => {
                let mut r = String::from_str("IoError: ");
                r.append(msg.as_str());
                r
            },
            ObsError::IndexOutOfBounds => String::from_str("Index out of bounds"),
            ObsError::NotFoundPlace => String::from_str("Place not found"),
            ObsError::NotFoundChannel => String::from_str("Channel not found"),
            ObsError::DisabledChannel => String::from_str("Channel is disabled"),
            ObsError::UnknownError => String::from_str("Unknown error"),
        }
    }
}

} // verus!
