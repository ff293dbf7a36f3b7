use serde_json::Value;
use supa_rs::client::{Body, Method, Payload, SupabaseClient};
use supa_rs::utils::Claims;

#[test]
fn table_update() {
    let mut client = SupabaseClient::new().base_url("https://project.example").api_key("anon-key");
    let fresh = Some(Claims { exp: Some(2_000), sub: None, iat: None });
    assert!(client.set_session("access", "refresh", &fresh, 1_000).is_none());
    let mut row = serde_json::Map::new();
    row.insert("name".to_string(), Value::from("test9"));
    let row = Value::Object(row);
    let req = client
        .from("test")
        .update(row.clone())
        .eq("name", "test".into())
        .select("*")
        .execute();
    assert_eq!(req.method, Method::PATCH);
    assert_eq!(req.url, "https://project.example/rest/v1/test?name=eq.test&select=*");
    assert_eq!(req.body, Body::Json(Payload::Value(row)));
}
