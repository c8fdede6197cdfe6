use std::io::Cursor;
use std::io::Read;

use elastic_responses::error::ApiError;
use elastic_responses::error::ParseResponseError;
use elastic_responses::error::ResponseError;
use elastic_responses::parse;
use elastic_responses::parsing::HttpResponseHead;

use serde_json::Value;

/// A single-pass reader that fails the test if anything tries to read it
/// again after it has reported end-of-file.
struct OnePassReader {
    data: Vec<u8>,
    pos: usize,
    eof_reported: bool,
}

impl OnePassReader {
    fn new(data: Vec<u8>) -> Self {
        OnePassReader { data, pos: 0, eof_reported: false }
    }
}

impl Read for OnePassReader {
    fn read(&mut self, buf: &mut [u8]) -> std::io::Result<usize> {
        assert!(!self.eof_reported, "transport read again after it was exhausted");
        let n = std::cmp::min(buf.len(), self.data.len() - self.pos);
        if n == 0 {
            self.eof_reported = true;
            return Ok(0);
        }
        buf[..n].copy_from_slice(&self.data[self.pos..self.pos + n]);
        self.pos += n;
        Ok(n)
    }
}

/// A reader whose transport fails mid-body.
struct FailingReader;

impl Read for FailingReader {
    fn read(&mut self, _buf: &mut [u8]) -> std::io::Result<usize> {
        Err(std::io::Error::new(std::io::ErrorKind::ConnectionReset, "connection reset"))
    }
}

fn object_with_number(key: &str, n: i64) -> Value {
    let mut map = serde_json::Map::new();
    map.insert(key.to_string(), Value::Number(serde_json::Number::from(n)));
    Value::Object(map)
}

#[test]
fn status_codes_classify_by_default_policy() {
    // A body that is valid JSON and also a valid error payload, so the
    // classification alone decides the outcome.
    let body = br#"{"error":"broken"}"#;
    for status in 0..1000u16 {
        let r = parse::<Value>().from_slice(status, body.to_vec());
        if (200..=299).contains(&status) {
            assert!(matches!(r, Ok(_)), "status {} should classify as success", status);
        } else {
            assert!(
                matches!(r, Err(ResponseError::Api(_))),
                "status {} should classify as error",
                status
            );
        }
    }
}

#[test]
fn slice_and_stream_agree_on_success() {
    let body = br#"{"a":1}"#.to_vec();
    let from_slice = parse::<Value>().from_slice(200, body.clone()).unwrap();
    let from_stream = parse::<Value>().from_reader(200, Cursor::new(body)).unwrap();
    assert_eq!(from_slice, from_stream);
}

#[test]
fn slice_and_stream_agree_on_api_error() {
    let body = br#"{"error":"index_not_found","index":"foo"}"#.to_vec();
    let from_slice = parse::<Value>().from_slice(404, body.clone()).unwrap_err();
    let from_stream = parse::<Value>().from_reader(404, Cursor::new(body)).unwrap_err();
    match (from_slice, from_stream) {
        (ResponseError::Api(e1), ResponseError::Api(e2)) => assert_eq!(e1, e2),
        _ => panic!("both outcomes should be API errors"),
    }
}

#[test]
fn stream_is_read_exactly_once_on_success() {
    // A JSON body of more than 10,000 bytes behind a reader that fails the
    // test on any read past end-of-file.
    let mut body = br#"{"filler":""#.to_vec();
    body.extend(std::iter::repeat(b'x').take(10_000));
    body.extend(br#""}"#);
    assert!(body.len() > 10_000);
    let r = parse::<Value>().from_reader(200, OnePassReader::new(body));
    assert!(r.is_ok());
}

#[test]
fn stream_is_read_exactly_once_on_api_error() {
    let body = br#"{"error":"broken"}"#.to_vec();
    let r = parse::<Value>().from_reader(500, OnePassReader::new(body));
    assert!(matches!(r, Err(ResponseError::Api(ApiError::Other { .. }))));
}

#[test]
fn buffered_bytes_decode_the_same_twice() {
    let body = br#"{"a":1}"#.to_vec();
    let first = parse::<Value>().from_slice(200, body.clone()).unwrap();
    let second = parse::<Value>().from_slice(200, body).unwrap();
    assert_eq!(first, second);
}

#[test]
fn success_status_with_json_body_decodes() {
    let r = parse::<Value>().from_slice(200, br#"{"a":1}"#.to_vec()).unwrap();
    assert_eq!(r, object_with_number("a", 1));
}

#[test]
fn error_status_with_error_payload_is_api_error() {
    let r = parse::<Value>().from_slice(404, br#"{"error":"index_not_found","index":"foo"}"#.to_vec());
    match r {
        Err(ResponseError::Api(ApiError::IndexNotFound { index })) => assert_eq!(index, "foo"),
        _ => panic!("expected an index-not-found API error"),
    }
}

#[test]
fn error_status_with_unknown_error_kind_is_api_error() {
    let r = parse::<Value>().from_slice(500, br#"{"error":"mapper_parsing_exception"}"#.to_vec());
    match r {
        Err(ResponseError::Api(ApiError::Other { error })) => {
            assert_eq!(error, "mapper_parsing_exception")
        },
        _ => panic!("expected an API error of unknown kind"),
    }
}

#[test]
fn index_not_found_without_index_field_is_unknown_kind() {
    let r = parse::<Value>().from_slice(404, br#"{"error":"index_not_found"}"#.to_vec());
    match r {
        Err(ResponseError::Api(ApiError::Other { error })) => assert_eq!(error, "index_not_found"),
        _ => panic!("expected an API error of unknown kind"),
    }
}

#[test]
fn empty_body_is_parse_error() {
    let r = parse::<Value>().from_slice(200, Vec::new());
    assert!(matches!(r, Err(ResponseError::Parse(ParseResponseError::Json(_)))));
}

#[test]
fn malformed_json_with_success_status_is_parse_error() {
    let r = parse::<Value>().from_slice(200, b"not json".to_vec());
    assert!(matches!(r, Err(ResponseError::Parse(ParseResponseError::Json(_)))));
}

#[test]
fn malformed_json_with_error_status_is_parse_error() {
    let r = parse::<Value>().from_slice(500, b"not json".to_vec());
    assert!(matches!(r, Err(ResponseError::Parse(ParseResponseError::Json(_)))));
}

#[test]
fn error_payload_shape_mismatch_is_parse_error() {
    // Valid JSON, but no "error" field: no error payload at all.
    let r = parse::<Value>().from_slice(500, b"{}".to_vec());
    assert!(matches!(r, Err(ResponseError::Parse(ParseResponseError::Shape))));
}

#[test]
fn error_payload_with_non_string_fields_is_parse_error() {
    let r = parse::<Value>().from_slice(500, br#"{"error":17}"#.to_vec());
    assert!(matches!(r, Err(ResponseError::Parse(ParseResponseError::Json(_)))));
}

#[test]
fn transport_failure_is_io_parse_error() {
    let r = parse::<Value>().from_reader(200, FailingReader);
    assert!(matches!(r, Err(ResponseError::Parse(ParseResponseError::Io(_)))));
}

#[test]
fn transport_failure_on_error_status_is_io_parse_error() {
    let r = parse::<Value>().from_reader(500, FailingReader);
    assert!(matches!(r, Err(ResponseError::Parse(ParseResponseError::Io(_)))));
}

#[test]
fn response_head_carries_the_status_code() {
    let head = HttpResponseHead::from(503);
    assert_eq!(head.status(), 503);
}

#[test]
fn stream_decode_reads_nested_json() {
    let body = br#"{"hits":{"total":2},"took":5}"#.to_vec();
    let r = parse::<Value>().from_reader(201, Cursor::new(body)).unwrap();
    assert_eq!(r.pointer("/hits/total"), Some(&Value::Number(serde_json::Number::from(2))));
    assert_eq!(r.pointer("/took"), Some(&Value::Number(serde_json::Number::from(5))));
}
