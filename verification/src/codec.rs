//! Text encoding and decoding of JSON values, delegated to `serde_json`.

use crate::error::{ErrorView, StoreError};
use vstd::prelude::*;

verus! {

/// `serde_json::Value`, carried through the store as an opaque value.
#[verifier::external_type_specification]
#[verifier::external_body]
pub struct ExValue(serde_json::Value);

/// `serde_json::Error`, carried as an opaque value until it is rendered.
#[verifier::external_type_specification]
#[verifier::external_body]
pub struct ExError(serde_json::Error);

/// The outcome of `serde_json::to_string_pretty` on a JSON value.
pub uninterp spec fn pretty_json(value: serde_json::Value) -> Result<Seq<char>, serde_json::Error>;

/// The outcome of `serde_json::from_str` reading a JSON value from a text.
pub uninterp spec fn parsed_json(text: Seq<char>) -> Result<serde_json::Value, serde_json::Error>;

/// The message that `serde_json::Error` displays.
pub uninterp spec fn error_text(error: serde_json::Error) -> Seq<char>;

/// Calls `serde_json::to_string_pretty`. Trusted: the outcome is a function of
/// the value alone, named `pretty_json`.
#[verifier::external_body]
fn to_pretty(value: &serde_json::Value) -> (r: Result<String, serde_json::Error>)
    ensures
        match r {
            Ok(text) => pretty_json(*value) == Ok::<Seq<char>, serde_json::Error>(text@),
            Err(e) => pretty_json(*value) == Err::<Seq<char>, serde_json::Error>(e),
        },
{
    serde_json::to_string_pretty(value)
}

/// Calls `serde_json::from_str` for a `serde_json::Value`. Trusted: the
/// outcome is a function of the text alone, named `parsed_json`.
#[verifier::external_body]
fn parse(text: &str) -> (r: Result<serde_json::Value, serde_json::Error>)
    ensures
        r == parsed_json(text@),
{
    serde_json::from_str::<serde_json::Value>(text)
}

/// Renders a `serde_json::Error` through its `Display` impl. Trusted: the
/// message is a function of the error alone, named `error_text`.
#[verifier::external_body]
fn describe(error: &serde_json::Error) -> (r: String)
    ensures
        r@ == error_text(*error),
{
    error.to_string()
}

/// What encoding a value gives: its pretty-printed text, or the failure that
/// carries the encoder's message.
pub open spec fn encoded(value: serde_json::Value) -> Result<Seq<char>, ErrorView> {
    match pretty_json(value) {
        Ok(text) => Ok(text),
        Err(e) => Err(ErrorView::Serialization(error_text(e))),
    }
}

/// What decoding a text gives: the value it denotes, or the failure that
/// carries the parser's message.
pub open spec fn decoded(text: Seq<char>) -> Result<serde_json::Value, ErrorView> {
    match parsed_json(text) {
        Ok(value) => Ok(value),
        Err(e) => Err(ErrorView::Parse(error_text(e))),
    }
}

/// Turns the encoder's outcome into the store's: the text is kept, an error
/// becomes a serialization failure with the error's message.
pub fn encode_outcome(outcome: Result<String, serde_json::Error>) -> (r: Result<
    String,
    StoreError,
>)
    ensures
        match outcome {
            Ok(text) => r matches Ok(t) && t@ == text@,
            Err(e) => r matches Err(f) && f@ == ErrorView::Serialization(error_text(e)),
        },
{
    match outcome {
        Ok(text) => Ok(text),
        Err(e) => Err(StoreError::Serialization(describe(&e))),
    }
}

/// Turns the parser's outcome into the store's: the value is kept, an error
/// becomes a parse failure with the error's message.
pub fn decode_outcome(outcome: Result<serde_json::Value, serde_json::Error>) -> (r: Result<
    serde_json::Value,
    StoreError,
>)
    ensures
        match outcome {
            Ok(value) => r matches Ok(v) && v == value,
            Err(e) => r matches Err(f) && f@ == ErrorView::Parse(error_text(e)),
        },
{
    match outcome {
        Ok(value) => Ok(value),
        Err(e) => Err(StoreError::Parse(describe(&e))),
    }
}

/// Encodes a value as pretty-printed JSON text.
pub fn encode(value: &serde_json::Value) -> (r: Result<String, StoreError>)
    ensures
        match r {
            Ok(text) => encoded(*value) == Ok::<Seq<char>, ErrorView>(text@),
            Err(e) => encoded(*value) == Err::<Seq<char>, ErrorView>(e@),
        },
{
    encode_outcome(to_pretty(value))
}

/// Decodes a JSON text into the value it denotes.
pub fn decode(text: &str) -> (r: Result<serde_json::Value, StoreError>)
    ensures
        match r {
            Ok(value) => decoded(text@) == Ok::<serde_json::Value, ErrorView>(value),
            Err(e) => decoded(text@) == Err::<serde_json::Value, ErrorView>(e@),
        },
{
    decode_outcome(parse(text))
}

} // verus!
