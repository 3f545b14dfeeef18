//! Typed extraction out of remote response payloads.
//!
//! Every extractor follows one discipline: the payload must be a JSON
//! object, it must carry a `data` field, and `data` must have the expected
//! sub-shape; any miss fails with [`RemoteError::InvalidResponse`] carrying
//! the payload whole. New response shapes are added by implementing
//! [`ResponseParser`], not by widening an existing variant.

use vstd::prelude::*;

use crate::error::RemoteError;
use crate::json::seq_rep;
use crate::json::take_entry;
use crate::json::JsonNum;
use crate::json::JsonValue;
use crate::json::SpecJson;
use crate::json::SpecNum;

verus! {

/// The capability "decode a generic response payload into one concrete
/// typed value".
///
/// `Model` is the mathematical model of an extracted value, `value_model`
/// maps an extracted value to it, and `spec_extract` says which payloads
/// extract and to what.
pub trait ResponseParser {
    type ValueType;

    type Model;

    /// The model of an extracted value.
    spec fn value_model(v: Self::ValueType) -> Self::Model;

    /// The model of the value embedded in `payload`, when extraction
    /// succeeds on it.
    spec fn spec_extract(payload: SpecJson) -> Option<Self::Model>;

    /// Extracts the typed value, or fails with an error carrying the
    /// offending payload whole.
    fn parse_response(payload: JsonValue) -> (r: Result<Self::ValueType, RemoteError>)
        ensures
            r is Ok <==> Self::spec_extract(payload@) is Some,
            r matches Ok(v) ==> Self::spec_extract(payload@) == Some(Self::value_model(v)),
            r matches Err(e) ==> e matches RemoteError::InvalidResponse(p) && p@ == payload@,
    ;
}

/// Extracts a text reply: `data` must be a JSON string.
pub struct ChatResponseParser;

impl ResponseParser for ChatResponseParser {
    type ValueType = String;

    type Model = Seq<char>;

    open spec fn value_model(v: String) -> Seq<char> {
        v@
    }

    open spec fn spec_extract(payload: SpecJson) -> Option<Seq<char>> {
        match payload.get("data"@) {
            Some(v) => match v {
                SpecJson::Str(s) => Some(s),
                _ => None,
            },
            _ => None,
        }
    }

    fn parse_response(payload: JsonValue) -> (r: Result<String, RemoteError>) {
        let good = match payload.get("data") {
            Some(v) => match v {
                JsonValue::Str(_) => true,
                _ => false,
            },
            None => false,
        };
        if !good {
            return Err(RemoteError::InvalidResponse(payload));
        }
        match payload {
            JsonValue::Obj(entries) => match take_entry(entries, "data") {
                Some(v) => match v {
                    JsonValue::Str(s) => Ok(s),
                    _ => vstd::pervasive::unreached(),
                },
                None => vstd::pervasive::unreached(),
            },
            _ => vstd::pervasive::unreached(),
        }
    }
}

/// Extracts a list reply: `data` must be a JSON array, whose elements come
/// back as generic values, order preserved, with no further validation per
/// element.
pub struct ChatRelatedQuestionsResponseParser;

impl ResponseParser for ChatRelatedQuestionsResponseParser {
    type ValueType = Vec<JsonValue>;

    type Model = Seq<SpecJson>;

    open spec fn value_model(v: Vec<JsonValue>) -> Seq<SpecJson> {
        seq_rep(v@)
    }

    open spec fn spec_extract(payload: SpecJson) -> Option<Seq<SpecJson>> {
        match payload.get("data"@) {
            Some(v) => match v {
                SpecJson::Arr(items) => Some(items),
                _ => None,
            },
            _ => None,
        }
    }

    fn parse_response(payload: JsonValue) -> (r: Result<Vec<JsonValue>, RemoteError>) {
        let good = match payload.get("data") {
            Some(v) => match v {
                JsonValue::Arr(_) => true,
                _ => false,
            },
            None => false,
        };
        if !good {
            return Err(RemoteError::InvalidResponse(payload));
        }
        match payload {
            JsonValue::Obj(entries) => match take_entry(entries, "data") {
                Some(v) => match v {
                    JsonValue::Arr(items) => Ok(items),
                    _ => vstd::pervasive::unreached(),
                },
                None => vstd::pervasive::unreached(),
            },
            _ => vstd::pervasive::unreached(),
        }
    }
}

/// Extracts a similarity reply: `data` must be an object bearing a numeric
/// `score` field. The number comes back in the exact form the wire carried
/// it; turning it into a floating-point value is the caller's step, outside
/// this crate.
pub struct SimilarityResponseParser;

impl ResponseParser for SimilarityResponseParser {
    type ValueType = JsonNum;

    type Model = SpecNum;

    open spec fn value_model(v: JsonNum) -> SpecNum {
        v@
    }

    open spec fn spec_extract(payload: SpecJson) -> Option<SpecNum> {
        match payload.get("data"@) {
            Some(d) => match d.get("score"@) {
                Some(v) => match v {
                    SpecJson::Num(n) => Some(n),
                    _ => None,
                },
                _ => None,
            },
            _ => None,
        }
    }

    fn parse_response(payload: JsonValue) -> (r: Result<JsonNum, RemoteError>) {
        let good = match payload.get("data") {
            Some(d) => match d.get("score") {
                Some(v) => match v {
                    JsonValue::Num(_) => true,
                    _ => false,
                },
                None => false,
            },
            None => false,
        };
        if !good {
            return Err(RemoteError::InvalidResponse(payload));
        }
        match payload {
            JsonValue::Obj(entries) => match take_entry(entries, "data") {
                Some(d) => match d {
                    JsonValue::Obj(inner) => match take_entry(inner, "score") {
                        Some(v) => match v {
                            JsonValue::Num(n) => Ok(n),
                            _ => vstd::pervasive::unreached(),
                        },
                        None => vstd::pervasive::unreached(),
                    },
                    _ => vstd::pervasive::unreached(),
                },
                None => vstd::pervasive::unreached(),
            },
            _ => vstd::pervasive::unreached(),
        }
    }
}

} // verus!
