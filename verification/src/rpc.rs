//! The RPC object wrapper and its classification into a [`Call`].
//!
//! A [`RpcObject`] is produced only by a successful parse and always wraps a
//! JSON object. Deriving a [`Call`] from it preserves a numeric `id` even
//! when the remaining payload cannot be decoded, so the caller can still
//! answer with an error keyed to that id.

use vstd::prelude::*;

use crate::error::RemoteError;
use crate::json::take_entry;
use crate::json::JsonNum;
use crate::json::JsonValue;
use crate::json::SpecJson;
use crate::json::SpecNum;

verus! {

/// A validated JSON object representing one parsed protocol line.
#[derive(Debug, PartialEq, Eq)]
pub struct RpcObject(pub JsonValue);

impl View for RpcObject {
    type V = SpecJson;

    open spec fn view(&self) -> SpecJson {
        self.0@
    }
}

impl RpcObject {
    /// Every object produced by the reader satisfies this: the wrapped value
    /// is a JSON object, never an array, scalar or null.
    pub open spec fn wf(self) -> bool {
        self@ is Obj
    }
}

/// A caller-assigned request identifier. This crate does not enforce
/// uniqueness; issuing distinct ids is the caller's contract.
pub type RequestId = u64;

/// The numeric `id` field of a message, if it carries one.
pub open spec fn spec_id(m: SpecJson) -> Option<RequestId> {
    match m.get("id"@) {
        Some(v) => match v {
            SpecJson::Num(n) => match n {
                SpecNum::Uint(u) => Some(u),
                _ => None,
            },
            _ => None,
        },
        _ => None,
    }
}

/// An RPC call: a notification, a request, or a malformed request.
#[derive(Debug)]
pub enum Call<R> {
    /// A bare message without a request id, carried whole.
    Message(JsonValue),
    /// A well-formed request: its id and the decoded payload.
    Request(RequestId, R),
    /// A request that carried a numeric id but whose remaining payload could
    /// not be decoded; the id is preserved so the caller can still send an
    /// error response keyed to it.
    InvalidRequest(RequestId, RemoteError),
}

/// The capability "decode a message into one concrete request shape".
///
/// `Model` is the mathematical model of a decoded request, `request_model`
/// maps a decoded value to it, and `spec_request` says which messages decode
/// and to what.
pub trait RequestParser {
    type Request;

    type Model;

    /// The model of a decoded request.
    spec fn request_model(r: Self::Request) -> Self::Model;

    /// The model of the request embedded in `m`, when `m` decodes.
    spec fn spec_request(m: SpecJson) -> Option<Self::Model>;

    /// Decodes a message into the request shape, or fails with an error that
    /// carries the offending value whole.
    fn parse_request(value: JsonValue) -> (r: Result<Self::Request, RemoteError>)
        ensures
            r is Ok <==> Self::spec_request(value@) is Some,
            r matches Ok(req) ==> Self::spec_request(value@) == Some(Self::request_model(req)),
            r matches Err(e) ==> e matches RemoteError::InvalidResponse(p) && p@ == value@,
    ;
}

/// The basic request shape: an object bearing a string `method` field.
#[derive(Debug, Clone, PartialEq, Eq)]
pub struct RpcRequest {
    pub method: String,
}

impl RequestParser for RpcRequest {
    type Request = RpcRequest;

    type Model = Seq<char>;

    open spec fn request_model(r: RpcRequest) -> Seq<char> {
        r.method@
    }

    open spec fn spec_request(m: SpecJson) -> Option<Seq<char>> {
        match m.get("method"@) {
            Some(v) => match v {
                SpecJson::Str(s) => Some(s),
                _ => None,
            },
            _ => None,
        }
    }

    fn parse_request(value: JsonValue) -> (r: Result<RpcRequest, RemoteError>) {
        let good = match value.get("method") {
            Some(v) => match v {
                JsonValue::Str(_) => true,
                _ => false,
            },
            None => false,
        };
        if !good {
            return Err(RemoteError::InvalidResponse(value));
        }
        match value {
            JsonValue::Obj(entries) => match take_entry(entries, "method") {
                Some(v) => match v {
                    JsonValue::Str(s) => Ok(RpcRequest { method: s }),
                    _ => vstd::pervasive::unreached(),
                },
                None => vstd::pervasive::unreached(),
            },
            _ => vstd::pervasive::unreached(),
        }
    }
}

impl RpcObject {
    /// The numeric request id of this object, when it carries one under the
    /// `id` key.
    pub fn get_id(&self) -> (r: Option<RequestId>)
        ensures
            r == spec_id(self@),
    {
        match self.0.get("id") {
            Some(v) => match v {
                JsonValue::Num(n) => match n {
                    JsonNum::Uint(u) => Some(*u),
                    _ => None,
                },
                _ => None,
            },
            None => None,
        }
    }

    /// Classifies this object: without an `id` field it is a bare
    /// [`Call::Message`]; with a numeric id it becomes [`Call::Request`] when
    /// the payload decodes under `P`, and [`Call::InvalidRequest`] bearing
    /// the same id when it does not.
    pub fn into_call<P: RequestParser>(self) -> (c: Call<P::Request>)
        ensures
            spec_id(self@) is None ==> (c matches Call::Message(v) && v@ == self@),
            spec_id(self@) matches Some(id) ==> match P::spec_request(self@) {
                Some(m) => c matches Call::Request(rid, req) && rid == id
                    && P::request_model(req) == m,
                None => c matches Call::InvalidRequest(rid, _) && rid == id,
            },
    {
        let id = self.get_id();
        match id {
            None => Call::Message(self.0),
            Some(n) => match P::parse_request(self.0) {
                Ok(req) => Call::Request(n, req),
                Err(e) => Call::InvalidRequest(n, e),
            },
        }
    }
}

} // verus!
