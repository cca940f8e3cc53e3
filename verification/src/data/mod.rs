//! The values that the service's replies are read into, and the ways in which
//! a request can fail.

pub mod connection;
pub mod departure;
pub mod location;

use vstd::prelude::*;
use crate::decode::Decode;
use crate::json::{json_document, parse_document, Json};

verus! {

/// The error with which `http` rejects a request target.
#[verifier::external_type_specification]
#[verifier::external_body]
pub struct ExInvalidUri(http::uri::InvalidUri);

/// Why a reply could not be read.
#[derive(Debug)]
pub enum DecodeFault {
    /// The text is no JSON.
    Syntax(serde_json::Error),
    /// The text is JSON, but a member is missing or of the wrong kind, or a
    /// discriminator names no known variant.
    Shape,
}

/// Why a request gave no result. The four kinds never overlap.
#[derive(Debug)]
pub enum MVGError {
    /// The connection failed; the text says how.
    HyperError(String),
    /// The reply could not be read.
    JsonError(DecodeFault),
    /// The address built for the request is no valid request target.
    InvalidUri(http::uri::InvalidUri),
    /// The service answered with a status other than 200; the text says what
    /// was asked for.
    ArgumentError(String),
}

/// A text that is no JSON fails as a reply that could not be read.
impl From<serde_json::Error> for MVGError {
    fn from(error: serde_json::Error) -> (r: MVGError) {
        MVGError::JsonError(DecodeFault::Syntax(error))
    }
}

impl vstd::std_specs::convert::FromSpecImpl<serde_json::Error> for MVGError {
    open spec fn obeys_from_spec() -> bool {
        true
    }

    open spec fn from_spec(error: serde_json::Error) -> MVGError {
        MVGError::JsonError(DecodeFault::Syntax(error))
    }
}

/// An address that is no request target fails as such.
impl From<http::uri::InvalidUri> for MVGError {
    fn from(error: http::uri::InvalidUri) -> (r: MVGError) {
        MVGError::InvalidUri(error)
    }
}

impl vstd::std_specs::convert::FromSpecImpl<http::uri::InvalidUri> for MVGError {
    open spec fn obeys_from_spec() -> bool {
        true
    }

    open spec fn from_spec(error: http::uri::InvalidUri) -> MVGError {
        MVGError::InvalidUri(error)
    }
}

/// Reads a parsed reply as a `T`: a text that was no JSON keeps its error, a
/// document of the wrong shape is a `Shape` fault, and every other document
/// gives its reading.
pub fn read_reply<T: Decode>(document: Result<Json, serde_json::Error>) -> (r: Result<T, MVGError>)
    ensures
        match document {
            Err(e) => r == Err::<T, MVGError>(MVGError::JsonError(DecodeFault::Syntax(e))),
            Ok(json) => {
                &&& r is Ok <==> T::shape(json)
                &&& r matches Ok(v) ==> v.reads(json)
                &&& r matches Err(e) ==> e == MVGError::JsonError(DecodeFault::Shape)
            },
        },
{
    match document {
        Err(e) => Err(MVGError::from(e)),
        Ok(json) => match T::decode(&json) {
            Some(v) => Ok(v),
            None => Err(MVGError::JsonError(DecodeFault::Shape)),
        },
    }
}

/// What `decode_reply` owes for a text: the reading of the document that the
/// text spells.
pub open spec fn reply_read<T: Decode>(text: Seq<char>, r: Result<T, MVGError>) -> bool {
    match json_document(text) {
        None => r matches Err(MVGError::JsonError(DecodeFault::Syntax(_))),
        Some(json) => {
            &&& r is Ok <==> T::shape(json)
            &&& r matches Ok(v) ==> v.reads(json)
            &&& r matches Err(e) ==> e == MVGError::JsonError(DecodeFault::Shape)
        },
    }
}

/// Reads the text of a reply as a `T`.
pub fn decode_reply<T: Decode>(text: &str) -> (r: Result<T, MVGError>)
    ensures
        reply_read(text@, r),
{
    read_reply(parse_document(text))
}

} // verus!
