//! Accounts and the session: what each call sends, and how the session's
//! tokens change.

use vstd::prelude::*;
use vstd::string::*;
use crate::client::{
    empty_object, request_of, session_token_of, ClientView, Error, HttpRequest, HttpRequestView,
    JsonField, JsonFieldView, LoginResponse, Method, Payload, PayloadView, Response,
    SupabaseClient,
};
use crate::utils::{expired, has_expired, Claims};

verus! {

/// The body that names an account.
pub open spec fn credentials(email: Seq<char>, password: Seq<char>) -> PayloadView {
    PayloadView::Object(
        seq![
            ("email"@, JsonFieldView::Text(email)),
            ("password"@, JsonFieldView::Text(password)),
        ],
    )
}

/// The client with both tokens of a session.
pub open spec fn with_session(c: ClientView, access_token: Seq<char>, refresh_token: Seq<char>) -> ClientView {
    ClientView { access_token: Some(access_token), refresh_token: Some(refresh_token), ..c }
}

/// The call that trades the refresh token for a new session.
pub open spec fn refresh_request(c: ClientView) -> HttpRequestView
    recommends
        c.refresh_token is Some,
{
    request_of(
        c,
        Method::POST,
        "auth/v1/token?grant_type=refresh_token"@,
        PayloadView::Object(seq![("refresh_token"@, JsonFieldView::Text(c.refresh_token->0))]),
        None,
        None,
    )
}

/// The client after the answer to a refresh.
pub open spec fn after_refresh(c: ClientView, outcome: Result<Response<LoginResponse>, Error>) -> ClientView {
    match outcome {
        Ok(res) => match res.data {
            Some(data) => with_session(c, data.access_token@, data.refresh_token@),
            None => c,
        },
        Err(_) => c,
    }
}

/// The client after the answer to a logout: without its tokens where the
/// backend accepted, unchanged where it refused.
pub open spec fn after_logout(c: ClientView, accepted: bool) -> ClientView {
    if accepted {
        ClientView { access_token: None, refresh_token: None, ..c }
    } else {
        c
    }
}

fn credentials_body(email: &str, password: &str) -> (r: Payload)
    ensures
        r@ == credentials(email@, password@),
{
    let mut members: Vec<(String, JsonField)> = Vec::new();
    members.push((String::from_str("email"), JsonField::Text(String::from_str(email))));
    members.push((String::from_str("password"), JsonField::Text(String::from_str(password))));
    assert(members.deep_view() =~= seq![
        ("email"@, JsonFieldView::Text(email@)),
        ("password"@, JsonFieldView::Text(password@)),
    ]);
    Payload::Object(members)
}

impl SupabaseClient {
    /// Takes up a session. Both tokens are stored. Where the access token has
    /// run out by its claims, the result is the call that refreshes it;
    /// otherwise there is nothing to send.
    pub fn set_session(
        &mut self,
        access_token: &str,
        refresh_token: &str,
        claims: &Option<Claims>,
        now: i64,
    ) -> (r: Option<HttpRequest>)
        ensures
            final(self)@ == with_session(old(self)@, access_token@, refresh_token@),
            match r {
                Some(call) => expired(*claims, now) && call@ == refresh_request(final(self)@),
                None => !expired(*claims, now),
            },
    {
        self.access_token = Some(String::from_str(access_token));
        self.refresh_token = Some(String::from_str(refresh_token));
        if has_expired(claims, now) {
            Some(self.refresh_token())
        } else {
            None
        }
    }

    /// Ends a refresh: a session that came back replaces both tokens, and a
    /// refusal leaves them as they were.
    pub fn finish_refresh(&mut self, outcome: Result<Response<LoginResponse>, Error>)
        requires
            outcome matches Ok(res) ==> res.data is Some,
        ensures
            final(self)@ == after_refresh(old(self)@, outcome),
    {
        match outcome {
            Ok(res) => {
                let data = res.data.unwrap();
                self.access_token = Some(data.access_token);
                self.refresh_token = Some(data.refresh_token);
            },
            Err(_) => {},
        }
    }

    /// The call that opens an account.
    pub fn signup(&self, email: &str, password: &str) -> (r: HttpRequest)
        ensures
            r@ == request_of(
                self@,
                Method::POST,
                "auth/v1/signup"@,
                credentials(email@, password@),
                None,
                None,
            ),
    {
        self.request(Method::POST, "auth/v1/signup", credentials_body(email, password), None, None)
    }

    /// The call that opens a session without an account.
    pub fn anonymous_login(&self) -> (r: HttpRequest)
        ensures
            r@ == request_of(
                self@,
                Method::POST,
                "auth/v1/signup"@,
                PayloadView::Object(Seq::empty()),
                None,
                None,
            ),
    {
        self.request(Method::POST, "auth/v1/signup", empty_object(), None, None)
    }

    /// The call that opens a session for an account.
    pub fn email_login(&self, email: &str, password: &str) -> (r: HttpRequest)
        ensures
            r@ == request_of(
                self@,
                Method::POST,
                "auth/v1/token?grant_type=password"@,
                credentials(email@, password@),
                None,
                None,
            ),
    {
        self.request(
            Method::POST,
            "auth/v1/token?grant_type=password",
            credentials_body(email, password),
            None,
            None,
        )
    }

    /// The call that ends the session.
    pub fn logout(&self) -> (r: HttpRequest)
        ensures
            r@ == request_of(
                self@,
                Method::POST,
                "auth/v1/logout"@,
                PayloadView::Object(Seq::empty()),
                Some(session_token_of(self@)),
                None,
            ),
    {
        let token = self.session_token();
        self.request(Method::POST, "auth/v1/logout", empty_object(), Some(token.as_str()), None)
    }

    /// Ends a logout: where the backend accepted it, both tokens are dropped;
    /// where it refused, they stay.
    pub fn finish_logout(&mut self, outcome: &Result<Response<String>, Error>)
        ensures
            final(self)@ == after_logout(old(self)@, outcome is Ok),
    {
        if outcome.is_ok() {
            self.access_token = None;
            self.refresh_token = None;
        }
    }

    /// The call that trades the refresh token for a new session.
    pub fn refresh_token(&self) -> (r: HttpRequest)
        requires
            self@.refresh_token is Some,
        ensures
            r@ == refresh_request(self@),
    {
        let token = match &self.refresh_token {
            Some(t) => t.clone(),
            None => String::new(),
        };
        let mut members: Vec<(String, JsonField)> = Vec::new();
        members.push((String::from_str("refresh_token"), JsonField::Text(token)));
        assert(members.deep_view() =~= seq![
            ("refresh_token"@, JsonFieldView::Text(self@.refresh_token->0)),
        ]);
        self.request(
            Method::POST,
            "auth/v1/token?grant_type=refresh_token",
            Payload::Object(members),
            None,
            None,
        )
    }

    /// The call that asks who the session belongs to.
    pub fn user(&self) -> (r: HttpRequest)
        ensures
            r@ == request_of(
                self@,
                Method::GET,
                "auth/v1/user"@,
                PayloadView::Object(Seq::empty()),
                Some(session_token_of(self@)),
                None,
            ),
    {
        let token = self.session_token();
        self.request(Method::GET, "auth/v1/user", empty_object(), Some(token.as_str()), None)
    }
}

} // verus!
