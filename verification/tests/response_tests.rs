use vt3::response::process_resp;
use vt3::VtError;

fn object_with(key: &str, value: serde_json::Value) -> serde_json::Value {
    let mut m = serde_json::Map::new();
    m.insert(key.to_string(), value);
    serde_json::Value::Object(m)
}

#[test]
fn get_200_with_matching_schema() {
    let r = process_resp(200, Ok("{\"id\": \"abc\"}".to_string()));
    let expected = object_with("id", serde_json::Value::String("abc".to_string()));
    assert_eq!(r.unwrap(), expected);
}

#[test]
fn status_429_is_remote_with_verbatim_text() {
    let body = "{\"error\":\"quota exceeded\"}".to_string();
    let r = process_resp(429, Ok(body.clone()));
    assert_eq!(
        r.unwrap_err(),
        VtError::Remote { status: 429, text: body }
    );
}

#[test]
fn any_non_200_is_remote() {
    for status in [201u16, 204, 301, 302, 400, 401, 403, 404, 500, 503] {
        let r = process_resp(status, Ok("ignored".to_string()));
        match r.unwrap_err() {
            VtError::Remote { status: s, text } => {
                assert_eq!(s, status);
                assert_eq!(text, "ignored");
            }
            other => panic!("expected a remote error, got {:?}", other),
        }
    }
}

#[test]
fn non_200_with_json_body_is_still_remote() {
    let r = process_resp(404, Ok("{\"ok\": true}".to_string()));
    assert!(matches!(r.unwrap_err(), VtError::Remote { status: 404, .. }));
}

#[test]
fn malformed_200_body_is_decode_error() {
    let r = process_resp(200, Ok("{not json".to_string()));
    assert!(matches!(r.unwrap_err(), VtError::Decode(_)));
}

#[test]
fn empty_200_body_is_decode_error() {
    let r = process_resp(200, Ok("".to_string()));
    assert!(matches!(r.unwrap_err(), VtError::Decode(_)));
}

#[test]
fn unreadable_200_body_is_transport_error() {
    let r = process_resp(200, Err("connection reset".to_string()));
    assert_eq!(r.unwrap_err(), VtError::Transport("connection reset".to_string()));
}

#[test]
fn unreadable_non_200_body_is_text_read_error() {
    let r = process_resp(500, Err("bad charset".to_string()));
    assert_eq!(r.unwrap_err(), VtError::TextRead("bad charset".to_string()));
}

#[test]
fn decoding_twice_yields_identical_results() {
    let body = "{\"data\": [1, 2, {\"k\": null}], \"done\": true}";
    let a = process_resp(200, Ok(body.to_string())).unwrap();
    let b = process_resp(200, Ok(body.to_string())).unwrap();
    assert_eq!(a, b);
}

#[test]
fn scalar_200_body_decodes() {
    let r = process_resp(200, Ok("42".to_string()));
    assert_eq!(r.unwrap(), serde_json::Value::Number(serde_json::Number::from(42)));
}
