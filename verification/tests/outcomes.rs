//! Classification of HTTP outcomes, and the error values it produces.

use zombodb::error::ElasticsearchError;
use zombodb::executor::HttpOutcome;
use zombodb::executor::classify_response;
use zombodb::executor::decode_failure;
use zombodb::executor::handle_response;

fn received(status: u16, content_type: &str, body: &[u8]) -> HttpOutcome {
    HttpOutcome::Received {
        status,
        content_type: content_type.to_owned(),
        body: body.to_vec(),
    }
}

#[test]
fn success_hands_the_body_to_the_decoder() {
    let r = handle_response(received(200, "application/json", b"{\"took\":3}"));
    assert_eq!(r.unwrap(), b"{\"took\":3}".to_vec());
}

#[test]
fn rejected_success_body_becomes_an_error_not_a_default() {
    // A 200 whose body the caller's decoder rejects: the executor surfaces
    // the decoder's failure as an error value.
    let r = handle_response(received(200, "application/json", b"not json at all"));
    let body = r.unwrap();
    let decoded: Result<u64, String> = std::str::from_utf8(&body)
        .map_err(|e| e.to_string())
        .and_then(|s| s.parse::<u64>().map_err(|e| e.to_string()));
    let outcome: Result<u64, ElasticsearchError> =
        decoded.map_err(|detail| decode_failure(200, detail));
    let err = outcome.unwrap_err();
    assert_eq!(err.status(), Some(200));
    assert!(!err.message().is_empty());
}

#[test]
fn json_error_body_is_rendered_pretty_with_the_status() {
    let r = handle_response(received(500, "application/json", b"{\"error\":\"boom\"}"));
    let err = r.unwrap_err();
    assert_eq!(err.status(), Some(500));
    assert!(err.message().contains("boom"));
    // The body was decoded and re-rendered, not echoed verbatim.
    assert_eq!(err.message(), "{\n  \"error\": \"boom\"\n}");
    assert_eq!(err.render(), "HTTP 500 {\n  \"error\": \"boom\"\n}");
}

#[test]
fn cbor_error_body_is_rendered_as_pretty_json() {
    // {"error": "boom"} in CBOR: a one-pair map of two text strings.
    let body: Vec<u8> = vec![
        0xa1, 0x65, b'e', b'r', b'r', b'o', b'r', 0x64, b'b', b'o', b'o', b'm',
    ];
    let r = handle_response(received(503, "application/cbor", &body));
    let err = r.unwrap_err();
    assert_eq!(err.status(), Some(503));
    assert_eq!(err.message(), "{\n  \"error\": \"boom\"\n}");
}

#[test]
fn other_content_type_is_read_verbatim() {
    let r = handle_response(received(404, "text/plain", b"no such index"));
    let err = r.unwrap_err();
    assert_eq!(err.status(), Some(404));
    assert!(err.is_404());
    assert_eq!(err.message(), "no such index");
}

#[test]
fn undecodable_error_body_gets_the_placeholder() {
    let r = handle_response(received(502, "text/plain", &[0xff, 0xfe, 0x80]));
    let err = r.unwrap_err();
    assert_eq!(err.message(), "no response data");
}

#[test]
fn json_error_body_that_does_not_parse_falls_back_to_text() {
    let r = handle_response(received(500, "application/json", b"gateway exploded"));
    let err = r.unwrap_err();
    assert_eq!(err.status(), Some(500));
    assert_eq!(err.message(), "gateway exploded");
}

#[test]
fn transport_failure_has_no_status_code() {
    let r = handle_response(HttpOutcome::NotReceived {
        cause: "Connection refused (os error 111)".to_owned(),
    });
    let err = r.unwrap_err();
    assert_eq!(err.status(), None);
    assert!(!err.is_404());
    assert_eq!(err.message(), "Connection refused (os error 111)");
    assert_eq!(err.render(), "Connection refused (os error 111)");
}

#[test]
fn classify_passes_every_2xx_through() {
    for status in [200u16, 201, 204, 299] {
        let r = classify_response(status, "application/json", vec![1, 2, 3]);
        assert_eq!(r.unwrap(), vec![1, 2, 3]);
    }
    for status in [199u16, 300, 301, 400, 500] {
        let r = classify_response(status, "text/plain", b"nope".to_vec());
        assert_eq!(r.unwrap_err().status(), Some(status));
    }
}

#[test]
fn error_rendering_prefixes_the_status() {
    let remote = ElasticsearchError::remote(404, "missing".to_owned());
    assert_eq!(remote.render(), "HTTP 404 missing");
    assert_eq!(remote.message(), "missing");
    assert!(remote.is_404());

    let transport = ElasticsearchError::transport("timed out".to_owned());
    assert_eq!(transport.render(), "timed out");
    assert_eq!(transport.status(), None);
}
