use supa_rs::client::{
    classify, classify_bytes, transport_error, Body, Error, FilePart, Method, Payload, Response,
    SupabaseClient,
};
use supa_rs::text::decimal_text;

fn pair(k: &str, v: &str) -> (String, String) {
    (k.to_string(), v.to_string())
}

fn blank_error(code: &str) -> Error {
    Error {
        code: Some(code.to_string()),
        status_code: None,
        error_code: None,
        error: None,
        msg: None,
        message: None,
        details: None,
    }
}

fn client() -> SupabaseClient {
    SupabaseClient::new().base_url("https://project.example").api_key("anon-key")
}

#[test]
fn new_client_is_blank() {
    let c = SupabaseClient::new();
    assert_eq!(c.base_url, "");
    assert_eq!(c.api_key, "");
    assert_eq!(c.access_token, None);
    assert_eq!(c.refresh_token, None);
}

#[test]
fn setting_address_or_key_drops_the_session() {
    let mut c = client();
    c.access_token = Some("a".to_string());
    c.refresh_token = Some("r".to_string());
    let c = c.base_url("https://other.example");
    assert_eq!(c.base_url, "https://other.example");
    assert_eq!(c.api_key, "anon-key");
    assert_eq!(c.access_token, None);
    assert_eq!(c.refresh_token, None);

    let mut c = c;
    c.access_token = Some("a".to_string());
    let c = c.api_key("service-key");
    assert_eq!(c.base_url, "https://other.example");
    assert_eq!(c.api_key, "service-key");
    assert_eq!(c.access_token, None);
}

#[test]
fn clone_keeps_every_field() {
    let mut c = client();
    c.access_token = Some("a".to_string());
    c.refresh_token = Some("r".to_string());
    assert_eq!(c.clone(), c);
}

#[test]
fn request_with_token_and_json_body() {
    let req = client().request(
        Method::POST,
        "rest/v1/items",
        Payload::Value(serde_json::Value::Bool(true)),
        Some("tok"),
        None,
    );
    assert_eq!(req.method, Method::POST);
    assert_eq!(req.url, "https://project.example/rest/v1/items");
    assert_eq!(
        req.headers,
        vec![
            pair("apikey", "anon-key"),
            pair("Authorization", "Bearer tok"),
            pair("Content-Type", "application/json"),
            pair("Prefer", "return=minimal"),
        ]
    );
    assert_eq!(req.body, Body::Json(Payload::Value(serde_json::Value::Bool(true))));
}

#[test]
fn request_asks_for_rows_when_columns_are_selected() {
    let req = client().request(
        Method::GET,
        "rest/v1/items?select=*",
        Payload::Object(vec![]),
        Some("tok"),
        None,
    );
    assert_eq!(req.headers[3], pair("Prefer", "return=representation"));
    let req = client().request(
        Method::GET,
        "rest/v1/items?selec=t",
        Payload::Object(vec![]),
        Some("tok"),
        None,
    );
    assert_eq!(req.headers[3], pair("Prefer", "return=minimal"));
}

#[test]
fn request_without_token_has_no_bearer() {
    let expected = vec![
        pair("apikey", "anon-key"),
        pair("Content-Type", "application/json"),
        pair("Prefer", "return=minimal"),
    ];
    let req = client().request(Method::GET, "p", Payload::Object(vec![]), None, None);
    assert_eq!(req.headers, expected);
    let req = client().request(Method::GET, "p", Payload::Object(vec![]), Some(""), None);
    assert_eq!(req.headers, expected);
}

#[test]
fn request_with_form_sends_the_form_alone() {
    let form = FilePart {
        name: "file".to_string(),
        file_name: "filename".to_string(),
        mime: "text/plain".to_string(),
        data: vec![1, 2, 3],
    };
    let req = client().request(
        Method::PUT,
        "up?select=1",
        Payload::Object(vec![]),
        Some("tok"),
        Some(form.clone()),
    );
    assert_eq!(req.method, Method::PUT);
    assert_eq!(req.url, "https://project.example/up?select=1");
    assert_eq!(req.headers, vec![pair("apikey", "anon-key"), pair("Authorization", "Bearer tok")]);
    assert_eq!(req.body, Body::Multipart(form));
}

#[test]
fn request_bytes_always_has_a_bearer() {
    let req = client().request_bytes("storage/v1/object/b/f.txt", Some("tok"));
    assert_eq!(req.method, Method::GET);
    assert_eq!(req.url, "https://project.example/storage/v1/object/b/f.txt");
    assert_eq!(req.headers, vec![pair("apikey", "anon-key"), pair("Authorization", "Bearer tok")]);
    assert_eq!(req.body, Body::Empty);

    let req = client().request_bytes("x", None);
    assert_eq!(req.headers, vec![pair("apikey", "anon-key"), pair("Authorization", "Bearer ")]);
}

#[test]
fn classify_accepts_the_two_hundreds() {
    for status in [200u16, 201, 204, 250, 299] {
        let res = classify(status, "body".to_string(), None);
        assert_eq!(res, Ok(Response { code: status, data: Some("body".to_string()) }));
    }
}

#[test]
fn classify_success_ignores_a_decoded_error() {
    let res = classify(200, "{}".to_string(), Some(blank_error("x")));
    assert_eq!(res, Ok(Response { code: 200, data: Some("{}".to_string()) }));
}

#[test]
fn classify_refuses_everything_else() {
    for (status, code) in [(199u16, "199"), (300, "300"), (404, "404"), (500, "500"), (100, "100")] {
        let res = classify(status, "oops".to_string(), None);
        assert_eq!(res, Err(blank_error(code)));
    }
}

#[test]
fn classify_takes_the_fields_of_a_decoded_error() {
    let decoded = Error {
        code: Some("PGRST116".to_string()),
        status_code: Some("400".to_string()),
        error_code: Some("bad_jwt".to_string()),
        error: Some("invalid".to_string()),
        msg: Some("m".to_string()),
        message: Some("long".to_string()),
        details: Some("d".to_string()),
    };
    let res = classify(401, "{}".to_string(), Some(decoded));
    assert_eq!(
        res,
        Err(Error {
            code: Some("401".to_string()),
            status_code: None,
            error_code: Some("bad_jwt".to_string()),
            error: Some("invalid".to_string()),
            msg: Some("m".to_string()),
            message: Some("long".to_string()),
            details: Some("d".to_string()),
        })
    );
}

#[test]
fn classify_bytes_follows_the_same_rule() {
    assert_eq!(classify_bytes(200, vec![9, 8]), Ok(Response { code: 200, data: Some(vec![9, 8]) }));
    assert_eq!(classify_bytes(204, vec![]), Ok(Response { code: 204, data: Some(vec![]) }));
    assert_eq!(classify_bytes(404, vec![1]), Err(blank_error("404")));
}

#[test]
fn transport_error_names_the_status_or_500() {
    let e = transport_error(None, "connection refused".to_string());
    let mut expected = blank_error("500");
    expected.msg = Some("connection refused".to_string());
    assert_eq!(e, expected);

    let e = transport_error(Some(502), "bad gateway".to_string());
    let mut expected = blank_error("502");
    expected.msg = Some("bad gateway".to_string());
    assert_eq!(e, expected);
}

#[test]
fn decimal_text_writes_numerals() {
    assert_eq!(decimal_text(0), "0");
    assert_eq!(decimal_text(7), "7");
    assert_eq!(decimal_text(10), "10");
    assert_eq!(decimal_text(204), "204");
    assert_eq!(decimal_text(1000), "1000");
    assert_eq!(decimal_text(65535), "65535");
}
