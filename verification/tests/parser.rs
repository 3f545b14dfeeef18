use sidecar_rpc::Call;
use sidecar_rpc::ChatRelatedQuestionsResponseParser;
use sidecar_rpc::ChatResponseParser;
use sidecar_rpc::JsonNum;
use sidecar_rpc::JsonValue;
use sidecar_rpc::MessageReader;
use sidecar_rpc::ReadError;
use sidecar_rpc::RemoteError;
use sidecar_rpc::ResponseParser;
use sidecar_rpc::RpcObject;
use sidecar_rpc::RpcRequest;
use sidecar_rpc::SimilarityResponseParser;

fn parse_payload(text: &str) -> JsonValue {
    let reader = MessageReader::default();
    match reader.parse(text) {
        Ok(obj) => obj.0,
        Err(_) => panic!("expected an object line"),
    }
}

#[test]
fn parse_object_line() {
    let reader = MessageReader::default();
    let obj = reader.parse("{\"a\": 1}").unwrap();
    assert_eq!(
        obj.0,
        JsonValue::Obj(vec![("a".to_string(), JsonValue::Num(JsonNum::Uint(1)))])
    );
}

#[test]
fn parse_array_is_not_object() {
    let reader = MessageReader::default();
    match reader.parse("[1,2,3]") {
        Err(ReadError::NotObject(t)) => assert_eq!(t, "[1,2,3]"),
        _ => panic!("expected NotObject"),
    }
}

#[test]
fn parse_string_is_not_object() {
    let reader = MessageReader::default();
    match reader.parse("\"hello\"") {
        Err(ReadError::NotObject(t)) => assert_eq!(t, "\"hello\""),
        _ => panic!("expected NotObject"),
    }
}

#[test]
fn parse_number_is_not_object() {
    let reader = MessageReader::default();
    match reader.parse("42") {
        Err(ReadError::NotObject(t)) => assert_eq!(t, "42"),
        _ => panic!("expected NotObject"),
    }
}

#[test]
fn parse_non_json_becomes_sentinel_message() {
    let reader = MessageReader::default();
    let obj = reader.parse("not json here").unwrap();
    assert_eq!(
        obj.0,
        JsonValue::Obj(vec![(
            "message".to_string(),
            JsonValue::Str("not json here".to_string())
        )])
    );
}

#[test]
fn parse_twice_yields_equal_results() {
    let reader = MessageReader::default();
    let texts = ["{\"id\": 4, \"b\": [1, null]}", "[7]", "plain text"];
    for text in texts {
        match (reader.parse(text), reader.parse(text)) {
            (Ok(a), Ok(b)) => assert_eq!(a, b),
            (Err(ReadError::NotObject(a)), Err(ReadError::NotObject(b))) => assert_eq!(a, b),
            _ => panic!("the two parses disagree"),
        }
    }
}

#[test]
fn next_on_empty_read_is_disconnect() {
    let mut reader = MessageReader::default();
    let mut input: &[u8] = b"";
    match reader.next(&mut input) {
        Err(ReadError::Disconnect) => {}
        _ => panic!("expected Disconnect"),
    }
}

#[test]
fn next_reads_one_line_per_call() {
    let mut reader = MessageReader::default();
    let mut input: &[u8] = b"{\"a\": true}\n{\"b\": null}\n";
    let first = reader.next(&mut input).unwrap();
    assert_eq!(
        first.0,
        JsonValue::Obj(vec![("a".to_string(), JsonValue::Bool(true))])
    );
    let second = reader.next(&mut input).unwrap();
    assert_eq!(
        second.0,
        JsonValue::Obj(vec![("b".to_string(), JsonValue::Null)])
    );
    match reader.next(&mut input) {
        Err(ReadError::Disconnect) => {}
        _ => panic!("expected Disconnect at end of input"),
    }
}

struct FailingReader;

impl std::io::Read for FailingReader {
    fn read(&mut self, _buf: &mut [u8]) -> std::io::Result<usize> {
        Err(std::io::Error::new(std::io::ErrorKind::Other, "broken pipe"))
    }
}

impl std::io::BufRead for FailingReader {
    fn fill_buf(&mut self) -> std::io::Result<&[u8]> {
        Err(std::io::Error::new(std::io::ErrorKind::Other, "broken pipe"))
    }

    fn consume(&mut self, _amt: usize) {}
}

#[test]
fn next_propagates_io_errors() {
    let mut reader = MessageReader::default();
    let mut input = FailingReader;
    match reader.next(&mut input) {
        Err(ReadError::Io(_)) => {}
        _ => panic!("expected an I/O error"),
    }
}

#[test]
fn object_without_id_is_a_message() {
    let payload = parse_payload("{\"method\": \"update\"}");
    let expected = parse_payload("{\"method\": \"update\"}");
    match RpcObject(payload).into_call::<RpcRequest>() {
        Call::Message(v) => assert_eq!(v, expected),
        _ => panic!("expected Message"),
    }
}

#[test]
fn object_with_id_and_method_is_a_request() {
    let payload = parse_payload("{\"id\": 3, \"method\": \"hello\"}");
    match RpcObject(payload).into_call::<RpcRequest>() {
        Call::Request(id, req) => {
            assert_eq!(id, 3);
            assert_eq!(req, RpcRequest { method: "hello".to_string() });
        }
        _ => panic!("expected Request"),
    }
}

#[test]
fn largest_id_is_kept_exactly() {
    let payload = parse_payload("{\"id\": 18446744073709551615, \"method\": \"m\"}");
    match RpcObject(payload).into_call::<RpcRequest>() {
        Call::Request(id, _) => assert_eq!(id, u64::MAX),
        _ => panic!("expected Request"),
    }
}

#[test]
fn bad_payload_with_id_is_an_invalid_request() {
    let payload = parse_payload("{\"id\": 7, \"method\": 5}");
    match RpcObject(payload).into_call::<RpcRequest>() {
        Call::InvalidRequest(id, _) => assert_eq!(id, 7),
        _ => panic!("expected InvalidRequest"),
    }
}

#[test]
fn missing_payload_with_id_is_an_invalid_request() {
    let payload = parse_payload("{\"id\": 9}");
    match RpcObject(payload).into_call::<RpcRequest>() {
        Call::InvalidRequest(id, _) => assert_eq!(id, 9),
        _ => panic!("expected InvalidRequest"),
    }
}

#[test]
fn non_numeric_id_is_a_message() {
    let payload = parse_payload("{\"id\": \"abc\", \"method\": \"m\"}");
    let expected = parse_payload("{\"id\": \"abc\", \"method\": \"m\"}");
    match RpcObject(payload).into_call::<RpcRequest>() {
        Call::Message(v) => assert_eq!(v, expected),
        _ => panic!("expected Message"),
    }
}

#[test]
fn chat_parser_returns_the_string() {
    let payload = parse_payload("{\"data\": \"hello\"}");
    assert_eq!(
        ChatResponseParser::parse_response(payload),
        Ok("hello".to_string())
    );
}

#[test]
fn chat_parser_rejects_an_array() {
    let payload = parse_payload("{\"data\": [1,2,3]}");
    let offending = parse_payload("{\"data\": [1,2,3]}");
    assert_eq!(
        ChatResponseParser::parse_response(payload),
        Err(RemoteError::InvalidResponse(offending))
    );
}

#[test]
fn chat_parser_rejects_an_empty_object() {
    let payload = parse_payload("{}");
    let offending = parse_payload("{}");
    assert_eq!(
        ChatResponseParser::parse_response(payload),
        Err(RemoteError::InvalidResponse(offending))
    );
}

#[test]
fn chat_parser_rejects_a_non_object() {
    let payload = JsonValue::Str("hi".to_string());
    assert_eq!(
        ChatResponseParser::parse_response(payload),
        Err(RemoteError::InvalidResponse(JsonValue::Str("hi".to_string())))
    );
}

#[test]
fn list_parser_keeps_elements_in_order() {
    let payload = parse_payload("{\"data\": [1, \"a\", true]}");
    assert_eq!(
        ChatRelatedQuestionsResponseParser::parse_response(payload),
        Ok(vec![
            JsonValue::Num(JsonNum::Uint(1)),
            JsonValue::Str("a".to_string()),
            JsonValue::Bool(true),
        ])
    );
}

#[test]
fn list_parser_accepts_an_empty_list() {
    let payload = parse_payload("{\"data\": []}");
    assert_eq!(
        ChatRelatedQuestionsResponseParser::parse_response(payload),
        Ok(vec![])
    );
}

#[test]
fn list_parser_rejects_a_string() {
    let payload = parse_payload("{\"data\": \"hello\"}");
    let offending = parse_payload("{\"data\": \"hello\"}");
    assert_eq!(
        ChatRelatedQuestionsResponseParser::parse_response(payload),
        Err(RemoteError::InvalidResponse(offending))
    );
}

#[test]
fn score_parser_returns_the_number() {
    let payload = parse_payload("{\"data\": {\"score\": 0.87}}");
    match SimilarityResponseParser::parse_response(payload) {
        Ok(JsonNum::Dec(text)) => assert_eq!(text.parse::<f64>().unwrap(), 0.87),
        _ => panic!("expected the decimal text of the score"),
    }
}

#[test]
fn score_parser_keeps_integer_scores() {
    let payload = parse_payload("{\"data\": {\"score\": 3}}");
    assert_eq!(
        SimilarityResponseParser::parse_response(payload),
        Ok(JsonNum::Uint(3))
    );
    let negative = parse_payload("{\"data\": {\"score\": -2}}");
    assert_eq!(
        SimilarityResponseParser::parse_response(negative),
        Ok(JsonNum::Int(-2))
    );
}

#[test]
fn score_parser_rejects_a_text_score() {
    let payload = parse_payload("{\"data\": {\"score\": \"x\"}}");
    let offending = parse_payload("{\"data\": {\"score\": \"x\"}}");
    assert_eq!(
        SimilarityResponseParser::parse_response(payload),
        Err(RemoteError::InvalidResponse(offending))
    );
}

#[test]
fn score_parser_rejects_a_missing_score() {
    let payload = parse_payload("{\"data\": {}}");
    let offending = parse_payload("{\"data\": {}}");
    assert_eq!(
        SimilarityResponseParser::parse_response(payload),
        Err(RemoteError::InvalidResponse(offending))
    );
}

#[test]
fn duplicate_keys_keep_the_last_value() {
    let payload = parse_payload("{\"a\": 1, \"a\": 2}");
    match payload.get("a") {
        Some(v) => assert_eq!(*v, JsonValue::Num(JsonNum::Uint(2))),
        None => panic!("expected a value under the duplicated key"),
    }
}
