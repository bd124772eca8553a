//! Classifying what the network gave back.
//!
//! The surrounding application sends a [`crate::plan::RequestPlan`] and
//! hands the raw outcome back as a [`TransportOutcome`]. The functions
//! here decide, for every possible outcome, whether the operation
//! succeeded and which error it failed with otherwise; no outcome is
//! retried and none is swallowed.

use vstd::prelude::*;
use vstd::string::StringExecFns;
use crate::error::PineconeError;

verus! {

/// What the network gave back for one request.
#[derive(Debug, Clone, PartialEq)]
pub enum TransportOutcome {
    /// The call itself could not complete (DNS, connection, TLS failure);
    /// the payload describes the failure.
    Failed(String),
    /// The service answered: its HTTP status code, a type tag derived
    /// from the response (its content type or a body-derived error kind),
    /// and the response body as text.
    Responded { status: u16, type_tag: String, body: String },
}

/// Classifies an outcome against the status code the operation expects.
///
/// A failed call is a transport error, always — a service that cannot be
/// reached never becomes a response error. An answer with any status
/// other than the expected one is a response error carrying that status,
/// the type tag and the body as its message — never a panic, whatever
/// the status is. An answer with the expected status succeeds with the
/// body text.
pub fn interpret(expected_status: u16, outcome: TransportOutcome) -> (r: Result<
    String,
    PineconeError,
>)
    ensures
        (match outcome {
            TransportOutcome::Failed(m) => r == Err::<String, PineconeError>(
                PineconeError::Transport(m),
            ),
            TransportOutcome::Responded { status, type_tag, body } => if status
                == expected_status {
                r == Ok::<String, PineconeError>(body)
            } else {
                r == Err::<String, PineconeError>(PineconeError::Response(status, type_tag, body))
            },
        }),
{
    match outcome {
        TransportOutcome::Failed(m) => Err(PineconeError::Transport(m)),
        TransportOutcome::Responded { status, type_tag, body } => {
            if status == expected_status {
                Ok(body)
            } else {
                Err(PineconeError::Response(status, type_tag, body))
            }
        },
    }
}

#[verifier::external_type_specification]
#[verifier::external_body]
pub struct ExValue(serde_json::Value);

/// Whether serde_json parses this text as one well-formed JSON document.
/// What `serde_json::from_str` accepts depends on the text alone.
pub uninterp spec fn is_json_text(s: Seq<char>) -> bool;

/// Relies on `serde_json::from_str::<serde_json::Value>`: it returns `Ok`
/// exactly when the text is one well-formed JSON document, a fact of the
/// text alone.
#[verifier::external_body]
fn parse_json_value(s: &str) -> (r: Option<serde_json::Value>)
    ensures
        r is Some <==> is_json_text(s@),
{
    serde_json::from_str::<serde_json::Value>(s).ok()
}

/// Classifies the outcome of an update, whose body the service answers
/// with an opaque JSON value that callers must ignore.
///
/// A failed call is a transport error; a status other than 200 is a
/// response error carrying that status; a 200 whose body is not JSON is a
/// decode error; a 200 with a JSON body succeeds, and what the value
/// holds is deliberately not stated.
pub fn interpret_update(outcome: TransportOutcome) -> (r: Result<
    serde_json::Value,
    PineconeError,
>)
    ensures
        (match outcome {
            TransportOutcome::Failed(m) => r == Err::<serde_json::Value, PineconeError>(
                PineconeError::Transport(m),
            ),
            TransportOutcome::Responded { status, type_tag, body } => if status != 200 {
                r == Err::<serde_json::Value, PineconeError>(
                    PineconeError::Response(status, type_tag, body),
                )
            } else if is_json_text(body@) {
                r is Ok
            } else {
                r matches Err(PineconeError::Decode(m)) && m@ == "update response was not valid JSON"@
            },
        }),
{
    match interpret(200, outcome) {
        Ok(body) => match parse_json_value(body.as_str()) {
            Some(v) => Ok(v),
            None => Err(
                PineconeError::Decode(String::from_str("update response was not valid JSON")),
            ),
        },
        Err(e) => Err(e),
    }
}

} // verus!
