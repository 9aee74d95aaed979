//! Request descriptors: everything a transport needs to issue one API call,
//! with the authentication and content-negotiation headers pinned down.

use vstd::prelude::*;
use crate::json::json_to_text;

verus! {

/// The HTTP method of a request.
#[derive(Clone, Copy, Debug, PartialEq, Eq)]
pub enum HttpMethod {
    Get,
    Post,
    Delete,
    Patch,
}

/// One part of a multipart form: a field name, the raw content, and an
/// optional file name.
#[derive(Clone, Debug, PartialEq, Eq)]
pub struct FormPart {
    pub name: String,
    pub content: Vec<u8>,
    pub filename: Option<String>,
}

/// The body a request carries.
#[derive(Clone, Debug, PartialEq, Eq)]
pub enum Payload {
    /// No body at all.
    NoBody,
    /// Key/value pairs appended to the URL as query parameters.
    Query(Vec<(String, String)>),
    /// Key/value pairs sent as an `application/x-www-form-urlencoded` body.
    Form(Vec<(String, String)>),
    /// A `multipart/form-data` body.
    Multipart(Vec<FormPart>),
    /// A JSON text sent as an `application/json` body.
    JsonBody(String),
}

/// Everything a transport needs to issue one API call.
#[derive(Clone, Debug, PartialEq, Eq)]
pub struct ApiRequest {
    pub method: HttpMethod,
    pub url: String,
    pub user_agent: String,
    pub headers: Vec<(String, String)>,
    pub payload: Payload,
}

/// Whether the header list carries `name` with value `value`.
pub open spec fn has_header(headers: Seq<(String, String)>, name: Seq<char>, value: Seq<char>) -> bool {
    exists|i: int| 0 <= i < headers.len() && headers[i].0@ == name && headers[i].1@ == value
}

/// Whether the request authenticates as `key`, that is, carries the
/// `x-apikey` header with that value.
pub open spec fn carries_api_key(r: ApiRequest, key: Seq<char>) -> bool {
    has_header(r.headers@, "x-apikey"@, key)
}

/// The one header every request carries: `x-apikey` set to the key.
fn auth_headers(api_key: &str) -> (h: Vec<(String, String)>)
    ensures
        h@.len() == 1,
        h@[0].0@ == "x-apikey"@,
        h@[0].1@ == api_key@,
{
    let mut h: Vec<(String, String)> = Vec::new();
    h.push(("x-apikey".to_owned(), api_key.to_owned()));
    h
}

/// The headers of the GET family: `x-apikey` and `Accept: application/json`.
fn auth_json_headers(api_key: &str) -> (h: Vec<(String, String)>)
    ensures
        h@.len() == 2,
        h@[0].0@ == "x-apikey"@,
        h@[0].1@ == api_key@,
        h@[1].0@ == "Accept"@,
        h@[1].1@ == "application/json"@,
{
    let mut h = auth_headers(api_key);
    h.push(("Accept".to_owned(), "application/json".to_owned()));
    h
}

/// A GET with no payload.
pub fn get_request(api_key: &str, user_agent: &str, url: &str) -> (r: ApiRequest)
    ensures
        r.method is Get,
        r.url@ == url@,
        r.user_agent@ == user_agent@,
        r.headers@.len() == 2,
        r.headers@[0].0@ == "x-apikey"@,
        r.headers@[0].1@ == api_key@,
        r.headers@[1].0@ == "Accept"@,
        r.headers@[1].1@ == "application/json"@,
        carries_api_key(r, api_key@),
        r.payload is NoBody,
{
    let r = ApiRequest {
        method: HttpMethod::Get,
        url: url.to_owned(),
        user_agent: user_agent.to_owned(),
        headers: auth_json_headers(api_key),
        payload: Payload::NoBody,
    };
    proof {
        assert(r.headers@[0].0@ == "x-apikey"@ && r.headers@[0].1@ == api_key@);
    }
    r
}

/// A GET whose URL is extended with query parameters, in the given order.
pub fn get_request_with_params(
    api_key: &str,
    user_agent: &str,
    url: &str,
    query_params: Vec<(String, String)>,
) -> (r: ApiRequest)
    ensures
        r.method is Get,
        r.url@ == url@,
        r.user_agent@ == user_agent@,
        r.headers@.len() == 2,
        r.headers@[0].0@ == "x-apikey"@,
        r.headers@[0].1@ == api_key@,
        r.headers@[1].0@ == "Accept"@,
        r.headers@[1].1@ == "application/json"@,
        carries_api_key(r, api_key@),
        (r.payload matches Payload::Query(q) && q == query_params),
{
    let r = ApiRequest {
        method: HttpMethod::Get,
        url: url.to_owned(),
        user_agent: user_agent.to_owned(),
        headers: auth_json_headers(api_key),
        payload: Payload::Query(query_params),
    };
    proof {
        assert(r.headers@[0].0@ == "x-apikey"@ && r.headers@[0].1@ == api_key@);
    }
    r
}

/// A POST whose body is the given fields, form-urlencoded.
pub fn post_form_request(
    api_key: &str,
    user_agent: &str,
    url: &str,
    form_data: Vec<(String, String)>,
) -> (r: ApiRequest)
    ensures
        r.method is Post,
        r.url@ == url@,
        r.user_agent@ == user_agent@,
        r.headers@.len() == 1,
        r.headers@[0].0@ == "x-apikey"@,
        r.headers@[0].1@ == api_key@,
        carries_api_key(r, api_key@),
        (r.payload matches Payload::Form(f) && f == form_data),
{
    let r = ApiRequest {
        method: HttpMethod::Post,
        url: url.to_owned(),
        user_agent: user_agent.to_owned(),
        headers: auth_headers(api_key),
        payload: Payload::Form(form_data),
    };
    proof {
        assert(r.headers@[0].0@ == "x-apikey"@ && r.headers@[0].1@ == api_key@);
    }
    r
}

/// A POST whose body is the given parts, as a multipart form.
pub fn post_multipart_request(
    api_key: &str,
    user_agent: &str,
    url: &str,
    form_data: Vec<FormPart>,
) -> (r: ApiRequest)
    ensures
        r.method is Post,
        r.url@ == url@,
        r.user_agent@ == user_agent@,
        r.headers@.len() == 1,
        r.headers@[0].0@ == "x-apikey"@,
        r.headers@[0].1@ == api_key@,
        carries_api_key(r, api_key@),
        (r.payload matches Payload::Multipart(p) && p == form_data),
{
    let r = ApiRequest {
        method: HttpMethod::Post,
        url: url.to_owned(),
        user_agent: user_agent.to_owned(),
        headers: auth_headers(api_key),
        payload: Payload::Multipart(form_data),
    };
    proof {
        assert(r.headers@[0].0@ == "x-apikey"@ && r.headers@[0].1@ == api_key@);
    }
    r
}

/// A POST whose body is the given document, rendered as JSON text.
pub fn post_json_request(
    api_key: &str,
    user_agent: &str,
    url: &str,
    data: &serde_json::Value,
) -> (r: ApiRequest)
    ensures
        r.method is Post,
        r.url@ == url@,
        r.user_agent@ == user_agent@,
        r.headers@.len() == 1,
        r.headers@[0].0@ == "x-apikey"@,
        r.headers@[0].1@ == api_key@,
        carries_api_key(r, api_key@),
        r.payload is JsonBody,
{
    let r = ApiRequest {
        method: HttpMethod::Post,
        url: url.to_owned(),
        user_agent: user_agent.to_owned(),
        headers: auth_headers(api_key),
        payload: Payload::JsonBody(json_to_text(data)),
    };
    proof {
        assert(r.headers@[0].0@ == "x-apikey"@ && r.headers@[0].1@ == api_key@);
    }
    r
}

/// A DELETE with no payload.
pub fn delete_request(api_key: &str, user_agent: &str, url: &str) -> (r: ApiRequest)
    ensures
        r.method is Delete,
        r.url@ == url@,
        r.user_agent@ == user_agent@,
        r.headers@.len() == 1,
        r.headers@[0].0@ == "x-apikey"@,
        r.headers@[0].1@ == api_key@,
        carries_api_key(r, api_key@),
        r.payload is NoBody,
{
    let r = ApiRequest {
        method: HttpMethod::Delete,
        url: url.to_owned(),
        user_agent: user_agent.to_owned(),
        headers: auth_headers(api_key),
        payload: Payload::NoBody,
    };
    proof {
        assert(r.headers@[0].0@ == "x-apikey"@ && r.headers@[0].1@ == api_key@);
    }
    r
}

/// A PATCH whose body is the given document, rendered as JSON text.
pub fn patch_json_request(
    api_key: &str,
    user_agent: &str,
    url: &str,
    data: &serde_json::Value,
) -> (r: ApiRequest)
    ensures
        r.method is Patch,
        r.url@ == url@,
        r.user_agent@ == user_agent@,
        r.headers@.len() == 1,
        r.headers@[0].0@ == "x-apikey"@,
        r.headers@[0].1@ == api_key@,
        carries_api_key(r, api_key@),
        r.payload is JsonBody,
{
    let r = ApiRequest {
        method: HttpMethod::Patch,
        url: url.to_owned(),
        user_agent: user_agent.to_owned(),
        headers: auth_headers(api_key),
        payload: Payload::JsonBody(json_to_text(data)),
    };
    proof {
        assert(r.headers@[0].0@ == "x-apikey"@ && r.headers@[0].1@ == api_key@);
    }
    r
}

} // verus!
