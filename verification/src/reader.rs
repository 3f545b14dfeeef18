//! The message reader: one classified message per call on a line-oriented
//! stream, and a pure parsing routine independent of I/O.

use vstd::prelude::*;

use crate::error::ReadError;
use crate::json::JsonNum;
use crate::json::JsonValue;
use crate::json::SpecJson;
use crate::rpc::RpcObject;

verus! {

#[verifier::external_type_specification]
#[verifier::external_body]
pub struct ExSerdeValue(serde_json::Value);

#[verifier::external_type_specification]
#[verifier::external_body]
pub struct ExSerdeNumber(serde_json::Number);

/// The JSON document a text denotes, when the text is valid JSON.
///
/// This names the result of `serde_json::from_str::<serde_json::Value>`
/// followed by the conversion below: both depend on the text alone.
pub uninterp spec fn json_parse(s: Seq<char>) -> Option<SpecJson>;

/// Relies on `serde_json::Number::as_u64` and `as_i64`: a JSON number is a
/// non-negative 64-bit integer, a negative 64-bit integer, or anything else,
/// which its decimal text carries.
#[verifier::external_body]
fn num_of_serde(n: serde_json::Number) -> (r: JsonNum) {
    if let Some(u) = n.as_u64() {
        JsonNum::Uint(u)
    } else if let Some(i) = n.as_i64() {
        JsonNum::Int(i)
    } else {
        JsonNum::Dec(n.to_string())
    }
}

/// Relies on the shape of `serde_json::Value`: each variant moves over to
/// the library's own value, one arm per variant.
#[verifier::external_body]
fn value_of_serde(v: serde_json::Value) -> (r: JsonValue) {
    match v {
        serde_json::Value::Null => JsonValue::Null,
        serde_json::Value::Bool(b) => JsonValue::Bool(b),
        serde_json::Value::Number(n) => JsonValue::Num(num_of_serde(n)),
        serde_json::Value::String(s) => JsonValue::Str(s),
        serde_json::Value::Array(a) => JsonValue::Arr(a.into_iter().map(value_of_serde).collect()),
        serde_json::Value::Object(m) => JsonValue::Obj(
            m.into_iter().map(|p| (p.0, value_of_serde(p.1))).collect(),
        ),
    }
}

/// Relies on `serde_json::from_str::<serde_json::Value>`: it succeeds
/// exactly on valid JSON text, and the document it yields depends on the
/// text alone.
#[verifier::external_body]
fn parse_json_text(s: &str) -> (r: Option<JsonValue>)
    ensures
        r is Some <==> json_parse(s@) is Some,
        r matches Some(v) ==> json_parse(s@) == Some(v@),
{
    serde_json::from_str::<serde_json::Value>(s).ok().map(value_of_serde)
}

/// Relies on `std::io::BufRead::read_line`: it appends what it read to the
/// buffer and returns how many bytes came, zero meaning end of stream.
#[verifier::external_body]
fn read_one_line<R: std::io::BufRead>(reader: &mut R, buf: &mut String) -> (r: Result<
    usize,
    std::io::Error,
>)
    ensures
        r matches Ok(n) ==> exists|line: Seq<char>|
            final(buf)@ == old(buf)@ + line && (n == 0 <==> line.len() == 0),
{
    reader.read_line(buf)
}

/// The sentinel shape a non-JSON line is normalized into: an object carrying
/// the raw text under the `message` key.
pub open spec fn sentinel_message(s: Seq<char>) -> SpecJson {
    SpecJson::Obj(seq![("message"@, SpecJson::Str(s))])
}

/// How one line of text is classified.
///
/// A line that is a JSON object comes back wrapped; valid JSON of any other
/// shape fails with [`ReadError::NotObject`] carrying the line verbatim; a
/// line that is not JSON at all is deliberately not an error: it is wrapped
/// as [`sentinel_message`], so that interleaved diagnostic text can surface
/// without terminating the channel.
pub open spec fn line_outcome(s: Seq<char>, r: Result<RpcObject, ReadError>) -> bool {
    match json_parse(s) {
        Some(m) => match m {
            SpecJson::Obj(_) => r matches Ok(o) && o@ == m,
            _ => r matches Err(e) && e matches ReadError::NotObject(t) && t@ == s,
        },
        None => r matches Ok(o) && o@ == sentinel_message(s),
    }
}

/// Parsing is a pure function of the line's text: two outcomes of `parse`
/// on the same text are structurally equal — equal models on success, and
/// the same error carrying the same text on failure.
pub proof fn lemma_parse_deterministic(
    s: Seq<char>,
    r1: Result<RpcObject, ReadError>,
    r2: Result<RpcObject, ReadError>,
)
    requires
        line_outcome(s, r1),
        line_outcome(s, r2),
    ensures
        match (r1, r2) {
            (Ok(a), Ok(b)) => a@ == b@,
            (Err(e1), Err(e2)) => e1 matches ReadError::NotObject(t1) && e2
                matches ReadError::NotObject(t2) && t1@ == t2@,
            _ => false,
        },
{
}

/// The construction-time invariant of [`RpcObject`]: whichever way a line
/// is classified, an object a parse yields wraps a JSON object — never an
/// array, scalar or null.
pub proof fn lemma_parsed_object_wf(s: Seq<char>, r: Result<RpcObject, ReadError>)
    requires
        line_outcome(s, r),
    ensures
        r matches Ok(o) ==> o.wf(),
{
}

/// Reads one line at a time from a buffered stream and classifies it.
///
/// The line buffer is exclusively owned by the reader, emptied at the start
/// of every call, and never shared: a reader instance must not be used from
/// two threads at once.
#[derive(Debug)]
pub struct MessageReader(String);

impl Default for MessageReader {
    /// A fresh reader with an empty line buffer.
    fn default() -> (r: Self)
        ensures
            r.buffer() == Seq::<char>::empty(),
    {
        MessageReader(String::new())
    }
}

impl MessageReader {
    /// The text of the line read last, held in the reader's own buffer.
    pub closed spec fn buffer(self) -> Seq<char> {
        self.0@
    }

    /// Reads exactly one line from `reader` and classifies it.
    ///
    /// An I/O failure propagates verbatim; a read of zero bytes fails with
    /// [`ReadError::Disconnect`], the canonical "peer closed the channel"
    /// signal; any other line is classified as [`line_outcome`] says, from
    /// the buffer that backs it until the next call.
    pub fn next<R: std::io::BufRead>(&mut self, reader: &mut R) -> (r: Result<
        RpcObject,
        ReadError,
    >)
        ensures
            match r {
                Err(e) => match e {
                    ReadError::Io(_) => true,
                    ReadError::Disconnect => final(self).buffer().len() == 0,
                    ReadError::NotObject(_) => final(self).buffer().len() > 0 && line_outcome(
                        final(self).buffer(),
                        r,
                    ),
                },
                Ok(_) => final(self).buffer().len() > 0 && line_outcome(final(self).buffer(), r),
            },
    {
        self.0 = String::new();
        match read_one_line(reader, &mut self.0) {
            Err(e) => Err(ReadError::Io(e)),
            Ok(_) => {
                if self.0.as_str().is_empty() {
                    Err(ReadError::Disconnect)
                } else {
                    self.parse(self.0.as_str())
                }
            },
        }
    }

    /// Attempts to parse a text as an RPC object, with no I/O: valid JSON
    /// objects come back wrapped, other valid JSON fails with
    /// [`ReadError::NotObject`] carrying the text, and anything else becomes
    /// the sentinel message object.
    pub fn parse(&self, s: &str) -> (r: Result<RpcObject, ReadError>)
        ensures
            line_outcome(s@, r),
    {
        match parse_json_text(s) {
            Some(v) => {
                if v.is_object() {
                    Ok(RpcObject(v))
                } else {
                    Err(ReadError::NotObject(s.to_owned()))
                }
            },
            None => {
                let mut entries: Vec<(String, JsonValue)> = Vec::new();
                entries.push(("message".to_owned(), JsonValue::Str(s.to_owned())));
                let v = JsonValue::Obj(entries);
                proof {
                    let es = crate::json::entries_rep(entries@);
                    assert(es[0] == ("message"@, SpecJson::Str(s@)));
                    assert(es =~= seq![("message"@, SpecJson::Str(s@))]);
                    assert(v@ =~= sentinel_message(s@));
                }
                Ok(RpcObject(v))
            },
        }
    }
}

} // verus!
