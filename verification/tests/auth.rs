use supa_rs::client::{
    Body, Error, HttpRequest, JsonField, LoginResponse, Method, Payload, Response, SupabaseClient,
};
use supa_rs::utils::Claims;

fn pair(k: &str, v: &str) -> (String, String) {
    (k.to_string(), v.to_string())
}

fn client() -> SupabaseClient {
    SupabaseClient::new().base_url("https://project.example").api_key("anon-key")
}

fn signed_in() -> SupabaseClient {
    let mut c = client();
    let fresh = Some(Claims { exp: Some(2_000), sub: None, iat: None });
    assert!(c.set_session("access", "refresh", &fresh, 1_000).is_none());
    c
}

fn credentials(email: &str, password: &str) -> Body {
    Body::Json(Payload::Object(vec![
        ("email".to_string(), JsonField::Text(email.to_string())),
        ("password".to_string(), JsonField::Text(password.to_string())),
    ]))
}

fn open_headers() -> Vec<(String, String)> {
    vec![
        pair("apikey", "anon-key"),
        pair("Content-Type", "application/json"),
        pair("Prefer", "return=minimal"),
    ]
}

fn session_headers() -> Vec<(String, String)> {
    vec![
        pair("apikey", "anon-key"),
        pair("Authorization", "Bearer access"),
        pair("Content-Type", "application/json"),
        pair("Prefer", "return=minimal"),
    ]
}

fn login_response(access: &str, refresh: &str) -> LoginResponse {
    LoginResponse {
        access_token: access.to_string(),
        expires_at: 1,
        expires_in: 3600,
        refresh_token: refresh.to_string(),
        token_type: "bearer".to_string(),
    }
}

#[test]
fn auth_signup() {
    let req = client().signup("test1@gmail.com", "12345678");
    assert_eq!(
        req,
        HttpRequest {
            method: Method::POST,
            url: "https://project.example/auth/v1/signup".to_string(),
            headers: open_headers(),
            body: credentials("test1@gmail.com", "12345678"),
        }
    );
}

#[test]
fn anonymous_login() {
    let req = client().anonymous_login();
    assert_eq!(
        req,
        HttpRequest {
            method: Method::POST,
            url: "https://project.example/auth/v1/signup".to_string(),
            headers: open_headers(),
            body: Body::Json(Payload::Object(vec![])),
        }
    );
}

#[test]
fn email_login() {
    let req = client().email_login("prubruttadaja-3961@yopmail.com", "12345678");
    assert_eq!(
        req,
        HttpRequest {
            method: Method::POST,
            url: "https://project.example/auth/v1/token?grant_type=password".to_string(),
            headers: open_headers(),
            body: credentials("prubruttadaja-3961@yopmail.com", "12345678"),
        }
    );
}

#[test]
fn auth_user() {
    let req = signed_in().user();
    assert_eq!(
        req,
        HttpRequest {
            method: Method::GET,
            url: "https://project.example/auth/v1/user".to_string(),
            headers: session_headers(),
            body: Body::Json(Payload::Object(vec![])),
        }
    );
}

#[test]
fn auth_logout() {
    let req = signed_in().logout();
    assert_eq!(
        req,
        HttpRequest {
            method: Method::POST,
            url: "https://project.example/auth/v1/logout".to_string(),
            headers: session_headers(),
            body: Body::Json(Payload::Object(vec![])),
        }
    );
}

#[test]
fn logout_without_session_has_no_bearer() {
    let req = client().logout();
    assert_eq!(req.headers, open_headers());
}

#[test]
fn set_session_stores_both_tokens() {
    let mut c = client();
    let fresh = Some(Claims { exp: Some(11), sub: Some("u".to_string()), iat: Some(1) });
    let call = c.set_session("a1", "r1", &fresh, 10);
    assert_eq!(call, None);
    assert_eq!(c.access_token, Some("a1".to_string()));
    assert_eq!(c.refresh_token, Some("r1".to_string()));
    assert_eq!(c.base_url, "https://project.example");
    assert_eq!(c.api_key, "anon-key");
}

#[test]
fn set_session_refreshes_a_token_that_ran_out() {
    let refresh_call = HttpRequest {
        method: Method::POST,
        url: "https://project.example/auth/v1/token?grant_type=refresh_token".to_string(),
        headers: open_headers(),
        body: Body::Json(Payload::Object(vec![(
            "refresh_token".to_string(),
            JsonField::Text("r1".to_string()),
        )])),
    };
    // expiry equal to now counts as run out
    let mut c = client();
    let at_now = Some(Claims { exp: Some(10), sub: None, iat: None });
    assert_eq!(c.set_session("a1", "r1", &at_now, 10), Some(refresh_call.clone()));
    assert_eq!(c.access_token, Some("a1".to_string()));
    // earlier expiry
    let mut c = client();
    let past = Some(Claims { exp: Some(-5), sub: None, iat: None });
    assert_eq!(c.set_session("a1", "r1", &past, 10), Some(refresh_call.clone()));
    // no expiry named
    let mut c = client();
    let open = Some(Claims { exp: None, sub: None, iat: None });
    assert_eq!(c.set_session("a1", "r1", &open, 10), Some(refresh_call.clone()));
    // claims unreadable
    let mut c = client();
    assert_eq!(c.set_session("a1", "r1", &None, 10), Some(refresh_call));
}

#[test]
fn refresh_token_call_carries_the_stored_token() {
    let c = signed_in();
    let req = c.refresh_token();
    assert_eq!(req.method, Method::POST);
    assert_eq!(req.url, "https://project.example/auth/v1/token?grant_type=refresh_token");
    assert_eq!(req.headers, open_headers());
    assert_eq!(
        req.body,
        Body::Json(Payload::Object(vec![(
            "refresh_token".to_string(),
            JsonField::Text("refresh".to_string()),
        )]))
    );
}

#[test]
fn finish_refresh_replaces_the_tokens() {
    let mut c = signed_in();
    c.finish_refresh(Ok(Response { code: 200, data: Some(login_response("a2", "r2")) }));
    assert_eq!(c.access_token, Some("a2".to_string()));
    assert_eq!(c.refresh_token, Some("r2".to_string()));
    assert_eq!(c.base_url, "https://project.example");
    assert_eq!(c.api_key, "anon-key");
}

#[test]
fn finish_refresh_keeps_the_tokens_on_refusal() {
    let mut c = signed_in();
    c.finish_refresh(Err(Error {
        code: Some("400".to_string()),
        status_code: None,
        error_code: None,
        error: None,
        msg: None,
        message: None,
        details: None,
    }));
    assert_eq!(c.access_token, Some("access".to_string()));
    assert_eq!(c.refresh_token, Some("refresh".to_string()));
}

#[test]
fn finish_logout_drops_the_tokens_when_accepted() {
    let mut c = signed_in();
    c.finish_logout(&Ok(Response { code: 204, data: Some("".to_string()) }));
    assert_eq!(c.access_token, None);
    assert_eq!(c.refresh_token, None);
    assert_eq!(c.base_url, "https://project.example");
    assert_eq!(c.api_key, "anon-key");
    assert_eq!(c.user().headers, open_headers());
}

#[test]
fn finish_logout_keeps_the_tokens_when_refused() {
    let mut c = signed_in();
    let refused: Result<Response<String>, Error> = Err(Error {
        code: Some("401".to_string()),
        status_code: None,
        error_code: None,
        error: None,
        msg: None,
        message: None,
        details: None,
    });
    c.finish_logout(&refused);
    assert_eq!(c.access_token, Some("access".to_string()));
    assert_eq!(c.refresh_token, Some("refresh".to_string()));
}
