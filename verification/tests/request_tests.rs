use vt3::request::{
    delete_request, get_request, get_request_with_params, patch_json_request, post_form_request,
    post_json_request, post_multipart_request, ApiRequest, FormPart, HttpMethod, Payload,
};
use vt3::response::process_resp;

const KEY: &str = "test-api-key";
const UA: &str = "vt3-tests";
const URL: &str = "https://www.virustotal.com/api/v3/files/abc";

fn pairs(raw: &[(&str, &str)]) -> Vec<(String, String)> {
    raw.iter().map(|(k, v)| (k.to_string(), v.to_string())).collect()
}

fn assert_has_api_key(r: &ApiRequest) {
    assert!(r
        .headers
        .iter()
        .any(|(name, value)| name == "x-apikey" && value == KEY));
}

#[test]
fn every_variant_carries_the_api_key() {
    let value = serde_json::Value::Bool(true);
    let requests = vec![
        get_request(KEY, UA, URL),
        get_request_with_params(KEY, UA, URL, pairs(&[("limit", "10")])),
        post_form_request(KEY, UA, URL, pairs(&[("key", "v1")])),
        post_multipart_request(
            KEY,
            UA,
            URL,
            vec![FormPart {
                name: "file".to_string(),
                content: b"content".to_vec(),
                filename: Some("a.bin".to_string()),
            }],
        ),
        post_json_request(KEY, UA, URL, &value),
        delete_request(KEY, UA, URL),
        patch_json_request(KEY, UA, URL, &value),
    ];
    for r in &requests {
        assert_has_api_key(r);
        assert_eq!(r.url, URL);
        assert_eq!(r.user_agent, UA);
    }
}

#[test]
fn get_family_accepts_json() {
    let accept = ("Accept".to_string(), "application/json".to_string());
    assert!(get_request(KEY, UA, URL).headers.contains(&accept));
    assert!(get_request_with_params(KEY, UA, URL, pairs(&[("a", "b")]))
        .headers
        .contains(&accept));
    assert_eq!(post_form_request(KEY, UA, URL, vec![]).headers.len(), 1);
    assert_eq!(delete_request(KEY, UA, URL).headers.len(), 1);
}

#[test]
fn methods_match_the_operation() {
    let value = serde_json::Value::Null;
    assert_eq!(get_request(KEY, UA, URL).method, HttpMethod::Get);
    assert_eq!(post_form_request(KEY, UA, URL, vec![]).method, HttpMethod::Post);
    assert_eq!(post_json_request(KEY, UA, URL, &value).method, HttpMethod::Post);
    assert_eq!(delete_request(KEY, UA, URL).method, HttpMethod::Delete);
    assert_eq!(patch_json_request(KEY, UA, URL, &value).method, HttpMethod::Patch);
}

#[test]
fn query_parameters_keep_their_order() {
    let params = pairs(&[("b", "2"), ("a", "1"), ("c", "3")]);
    let r = get_request_with_params(KEY, UA, URL, params.clone());
    assert_eq!(r.payload, Payload::Query(params));
}

#[test]
fn form_fields_keep_their_order() {
    let fields = pairs(&[("key", "v1"), ("other", "v2")]);
    let r = post_form_request(KEY, UA, URL, fields.clone());
    assert_eq!(r.payload, Payload::Form(fields));
}

#[test]
fn multipart_parts_are_kept() {
    let part = FormPart {
        name: "report".to_string(),
        content: vec![1, 2, 3],
        filename: None,
    };
    let r = post_multipart_request(KEY, UA, URL, vec![part.clone()]);
    assert_eq!(r.payload, Payload::Multipart(vec![part]));
}

#[test]
fn json_body_renders_the_given_document() {
    let mut m = serde_json::Map::new();
    m.insert("comment".to_string(), serde_json::Value::String("hi".to_string()));
    let value = serde_json::Value::Object(m);
    let r = post_json_request(KEY, UA, URL, &value);
    match r.payload {
        Payload::JsonBody(text) => {
            let back: serde_json::Value = serde_json::from_str(&text).unwrap();
            assert_eq!(back, value);
        }
        other => panic!("expected a JSON body, got {:?}", other),
    }
}

#[test]
fn delete_and_get_have_no_body() {
    assert_eq!(get_request(KEY, UA, URL).payload, Payload::NoBody);
    assert_eq!(delete_request(KEY, UA, URL).payload, Payload::NoBody);
}

#[test]
fn post_form_with_empty_object_response_succeeds() {
    let r = post_form_request(KEY, UA, URL, pairs(&[("key", "v1")]));
    assert_eq!(r.payload, Payload::Form(pairs(&[("key", "v1")])));
    let outcome = process_resp(200, Ok("{}".to_string()));
    assert_eq!(
        outcome.unwrap(),
        serde_json::Value::Object(serde_json::Map::new())
    );
}
