use serde_json::Value;
use supa_rs::client::{Body, Method, Payload, SupabaseClient};
use supa_rs::utils::Claims;

fn client() -> SupabaseClient {
    let mut c = SupabaseClient::new().base_url("https://project.example").api_key("anon-key");
    let fresh = Some(Claims { exp: Some(2_000), sub: None, iat: None });
    assert!(c.set_session("access", "refresh", &fresh, 1_000).is_none());
    c
}

fn named(name: &str) -> Value {
    let mut row = serde_json::Map::new();
    row.insert("name".to_string(), Value::from(name));
    Value::Object(row)
}

#[test]
fn table_insert_one() {
    let req = client().from("test").insert(named("test")).execute();
    assert_eq!(req.method, Method::POST);
    assert_eq!(req.url, "https://project.example/rest/v1/test");
    assert_eq!(req.headers[3], ("Prefer".to_string(), "return=minimal".to_string()));
    assert_eq!(req.body, Body::Json(Payload::Value(named("test"))));
}

#[test]
fn table_insert_many() {
    let rows = Value::Array(vec![named("test1"), named("test2")]);
    let req = client().from("test").insert(rows.clone()).select("*").execute();
    assert_eq!(req.method, Method::POST);
    assert_eq!(req.url, "https://project.example/rest/v1/test?select=*");
    assert_eq!(req.headers[3], ("Prefer".to_string(), "return=representation".to_string()));
    assert_eq!(req.body, Body::Json(Payload::Value(rows)));
}
