//! The inbound side of the wire protocol: reading a response line.
//!
//! A response line is a JSON object `{"status": ..., "data": ..., "error":
//! ...}`. serde_json decides whether the line parses and hands the three
//! fields out as plain values; everything after that — which envelopes mean
//! success, which carry the worker's own error text, and which are malformed
//! — is decided here. `line_reading` states the whole of it over the named
//! projections of the line text, so the contract of `interpret_line` pins
//! the result for every line.

use vstd::prelude::*;
use vstd::string::StringExecFns;
use crate::errors::BridgeError;
use crate::json::{error_of, has_data_of, is_valid_json, read_fields, status_of};

verus! {

/// A response envelope, reduced to its three fields as plain values.
pub struct PythonResponse {
    /// The `status` field's text.
    pub status: String,
    /// The `data` field, if the envelope had one.
    pub data: Option<serde_json::Value>,
    /// The `error` field's text, if the envelope had one.
    pub error: Option<String>,
}

/// What a response envelope means to the caller of `send_command`:
/// status `success` yields the data field; status `error` yields a failure
/// carrying the worker's own message, and is malformed without one; any
/// other status is malformed.
pub open spec fn response_meaning(r: PythonResponse) -> Result<
    Option<serde_json::Value>,
    BridgeError,
> {
    if r.status@ == "success"@ {
        Ok(r.data)
    } else if r.status@ == "error"@ {
        match r.error {
            Some(message) => Err(BridgeError::Worker(message)),
            None => Err(BridgeError::Protocol),
        }
    } else {
        Err(BridgeError::Protocol)
    }
}

/// What reading `line` as a response envelope must yield, over the named
/// projections of the line text: a line that is not valid JSON is a
/// `Protocol` failure; a valid line with status `success` succeeds, with
/// data exactly when the line has a `data` field; one with status `error`
/// fails with the worker's own message, verbatim, and is malformed without
/// one; every other line is a `Protocol` failure.
pub open spec fn line_reading(
    line: Seq<char>,
    r: Result<Option<serde_json::Value>, BridgeError>,
) -> bool {
    if !is_valid_json(line) {
        r == Err::<Option<serde_json::Value>, BridgeError>(BridgeError::Protocol)
    } else if status_of(line) == Some("success"@) {
        match r {
            Ok(data) => (data is Some) == has_data_of(line),
            Err(_) => false,
        }
    } else if status_of(line) == Some("error"@) {
        match error_of(line) {
            Some(message) => r matches Err(BridgeError::Worker(w)) && w@ == message,
            None => r == Err::<Option<serde_json::Value>, BridgeError>(BridgeError::Protocol),
        }
    } else {
        r == Err::<Option<serde_json::Value>, BridgeError>(BridgeError::Protocol)
    }
}

impl PythonResponse {
    /// Decide what this envelope means: exactly `response_meaning`.
    pub fn interpret(self) -> (r: Result<Option<serde_json::Value>, BridgeError>)
        ensures
            r == response_meaning(self),
    {
        let success: String = String::from_str("success");
        if self.status == success {
            Ok(self.data)
        } else {
            let error: String = String::from_str("error");
            if self.status == error {
                match self.error {
                    Some(message) => Err(BridgeError::Worker(message)),
                    None => Err(BridgeError::Protocol),
                }
            } else {
                Err(BridgeError::Protocol)
            }
        }
    }
}

/// Read one stdout line as a response envelope: exactly `line_reading`.
///
/// A malformed line — not valid JSON, or not an envelope — yields
/// `Protocol`; it is never surfaced to the caller as raw text. The only
/// failures that can come out of a line are `Protocol` and the worker's own
/// `Worker` error.
pub fn interpret_line(line: &str) -> (r: Result<Option<serde_json::Value>, BridgeError>)
    ensures
        line_reading(line@, r),
        r matches Err(e) ==> (e is Protocol || e is Worker),
{
    match read_fields(line) {
        None => Err(BridgeError::Protocol),
        Some((status, data, error)) => {
            match status {
                None => Err(BridgeError::Protocol),
                Some(status) => PythonResponse { status, data, error }.interpret(),
            }
        },
    }
}

} // verus!
