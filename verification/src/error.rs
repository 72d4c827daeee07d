//! The errors of the bridge and their texts.

use crate::codec::EncodeError;
use crate::engine::{error_text, error_words};
use vstd::prelude::*;
use vstd::string::StringExecFns;

verus! {

/// Why a call on the bridge failed. The engine's own words are carried along
/// where it has any.
#[derive(Debug, PartialEq)]
pub enum BridgeError {
    /// The bytes of a request were no request.
    Deserialization(String),
    /// The engine could not open the database.
    Connection(String),
    /// Every handle has been handed out.
    HandlesExhausted,
    /// The engine refused the statement, its parameters, or a step of it.
    Statement(String),
    /// A value that came out of the engine has no form on the wire.
    Encode(EncodeError),
}

/// Whether `error` is the statement error that carries the words of the
/// engine's `refusal`.
pub open spec fn is_refusal(error: BridgeError, refusal: rusqlite::Error) -> bool {
    error matches BridgeError::Statement(detail) && detail@ == error_words(refusal)
}

impl BridgeError {
    /// The error for a database that the engine did not open, with the
    /// engine's words.
    pub fn connection(error: &rusqlite::Error) -> (r: BridgeError)
        ensures
            r matches BridgeError::Connection(detail) && detail@ == error_words(*error),
    {
        BridgeError::Connection(error_text(error))
    }

    /// The error for a statement that the engine refused, with the engine's
    /// words.
    pub fn statement(error: &rusqlite::Error) -> (r: BridgeError)
        ensures
            is_refusal(r, *error),
    {
        BridgeError::Statement(error_text(error))
    }

    /// What an answer of the engine to a statement becomes: itself where
    /// the engine gave one, and else the statement error with the engine's
    /// words.
    pub fn of_statement<T>(answer: Result<T, rusqlite::Error>) -> (r: Result<T, BridgeError>)
        ensures
            match answer {
                Ok(value) => r == Ok::<T, BridgeError>(value),
                Err(error) => r is Err && is_refusal(r->Err_0, error),
            },
    {
        match answer {
            Ok(value) => Ok(value),
            Err(error) => Err(BridgeError::statement(&error)),
        }
    }

    /// The text of this error: never empty.
    pub open spec fn message_spec(self) -> Seq<char> {
        match self {
            BridgeError::Deserialization(detail) => "malformed request: "@ + detail@,
            BridgeError::Connection(detail) => "connection failed: "@ + detail@,
            BridgeError::HandlesExhausted => "connection failed: no handle is left"@,
            BridgeError::Statement(detail) => "statement failed: "@ + detail@,
            BridgeError::Encode(EncodeError::NotFinite) => "encoding failed: a real is not finite"@,
            BridgeError::Encode(EncodeError::TooLarge) => "encoding failed: a value is too large"@,
        }
    }

    /// No error has an empty text.
    pub proof fn lemma_message_is_not_empty(self)
        ensures
            self.message_spec().len() > 0,
    {
        reveal_strlit("malformed request: ");
        reveal_strlit("connection failed: ");
        reveal_strlit("connection failed: no handle is left");
        reveal_strlit("statement failed: ");
        reveal_strlit("encoding failed: a real is not finite");
        reveal_strlit("encoding failed: a value is too large");
    }

    /// The text that a response carries for this error.
    pub fn message(&self) -> (r: String)
        ensures
            r@ == self.message_spec(),
    {
        match self {
            BridgeError::Deserialization(detail) => String::from_str("malformed request: ").concat(
                detail.as_str(),
            ),
            BridgeError::Connection(detail) => String::from_str("connection failed: ").concat(
                detail.as_str(),
            ),
            BridgeError::HandlesExhausted => String::from_str(
                "connection failed: no handle is left",
            ),
            BridgeError::Statement(detail) => String::from_str("statement failed: ").concat(
                detail.as_str(),
            ),
            BridgeError::Encode(EncodeError::NotFinite) => String::from_str(
                "encoding failed: a real is not finite",
            ),
            BridgeError::Encode(EncodeError::TooLarge) => String::from_str(
                "encoding failed: a value is too large",
            ),
        }
    }
}

} // verus!
