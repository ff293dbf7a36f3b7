//! The client, the shapes of what it sends and gets, and the one rule by
//! which every reply is read.

use vstd::prelude::*;
use vstd::string::*;
use crate::text::{contains_text, decimal, decimal_text, has_substring};

verus! {

/// Where the backend is and who is calling.
#[derive(Debug, PartialEq)]
pub struct SupabaseClient {
    pub base_url: String,
    pub api_key: String,
    pub access_token: Option<String>,
    pub refresh_token: Option<String>,
}

pub struct ClientView {
    pub base_url: Seq<char>,
    pub api_key: Seq<char>,
    pub access_token: Option<Seq<char>>,
    pub refresh_token: Option<Seq<char>>,
}

impl View for SupabaseClient {
    type V = ClientView;

    open spec fn view(&self) -> ClientView {
        ClientView {
            base_url: self.base_url@,
            api_key: self.api_key@,
            access_token: self.access_token.deep_view(),
            refresh_token: self.refresh_token.deep_view(),
        }
    }
}

#[derive(Clone, Copy, Debug, PartialEq, Eq, Structural)]
pub enum Method {
    GET,
    POST,
    DELETE,
    PATCH,
    PUT,
}

/// A reply that was accepted: its status and what it carried.
#[derive(Debug, Clone, PartialEq)]
pub struct Response<T> {
    pub code: u16,
    pub data: Option<T>,
}

/// A reply that was refused. `code` is the status as text; the other fields
/// are whichever of them the backend filled in.
#[derive(Debug, Clone, PartialEq)]
pub struct Error {
    pub code: Option<String>,
    pub status_code: Option<String>,
    pub error_code: Option<String>,
    pub error: Option<String>,
    pub msg: Option<String>,
    pub message: Option<String>,
    pub details: Option<String>,
}

pub struct ErrorView {
    pub code: Option<Seq<char>>,
    pub status_code: Option<Seq<char>>,
    pub error_code: Option<Seq<char>>,
    pub error: Option<Seq<char>>,
    pub msg: Option<Seq<char>>,
    pub message: Option<Seq<char>>,
    pub details: Option<Seq<char>>,
}

impl View for Error {
    type V = ErrorView;

    open spec fn view(&self) -> ErrorView {
        ErrorView {
            code: self.code.deep_view(),
            status_code: self.status_code.deep_view(),
            error_code: self.error_code.deep_view(),
            error: self.error.deep_view(),
            msg: self.msg.deep_view(),
            message: self.message.deep_view(),
            details: self.details.deep_view(),
        }
    }
}

#[derive(Debug, Clone, PartialEq)]
pub struct LoginResponse {
    pub access_token: String,
    pub expires_at: i64,
    pub expires_in: i64,
    pub refresh_token: String,
    pub token_type: String,
}

#[derive(Debug, Clone, PartialEq)]
pub struct UserResponse {
    pub id: String,
    pub email: String,
    pub is_anonymous: bool,
    pub created_at: String,
    pub updated_at: String,
}

/// One member of a JSON object that the library writes itself.
#[derive(Debug, Clone, PartialEq)]
pub enum JsonField {
    Null,
    Bool(bool),
    Int(i64),
    Text(String),
    List(Vec<String>),
    Object(Vec<(String, String)>),
}

pub enum JsonFieldView {
    Null,
    Bool(bool),
    Int(i64),
    Text(Seq<char>),
    List(Seq<Seq<char>>),
    Object(Seq<(Seq<char>, Seq<char>)>),
}

impl DeepView for JsonField {
    type V = JsonFieldView;

    open spec fn deep_view(&self) -> JsonFieldView {
        match self {
            JsonField::Null => JsonFieldView::Null,
            JsonField::Bool(b) => JsonFieldView::Bool(*b),
            JsonField::Int(n) => JsonFieldView::Int(*n),
            JsonField::Text(s) => JsonFieldView::Text(s@),
            JsonField::List(items) => JsonFieldView::List(items.deep_view()),
            JsonField::Object(members) => JsonFieldView::Object(members.deep_view()),
        }
    }
}

/// A JSON body: an object whose members the library names, in order, or a
/// value that the caller supplied and that is sent as it is.
#[derive(Debug, Clone, PartialEq)]
pub enum Payload {
    Object(Vec<(String, JsonField)>),
    Value(serde_json::Value),
}

pub enum PayloadView {
    Object(Seq<(Seq<char>, JsonFieldView)>),
    Value(serde_json::Value),
}

impl View for Payload {
    type V = PayloadView;

    open spec fn view(&self) -> PayloadView {
        match self {
            Payload::Object(members) => PayloadView::Object(members.deep_view()),
            Payload::Value(v) => PayloadView::Value(*v),
        }
    }
}

/// The single part of a multipart form.
#[derive(Debug, Clone, PartialEq)]
pub struct FilePart {
    pub name: String,
    pub file_name: String,
    pub mime: String,
    pub data: Vec<u8>,
}

pub struct FilePartView {
    pub name: Seq<char>,
    pub file_name: Seq<char>,
    pub mime: Seq<char>,
    pub data: Seq<u8>,
}

impl View for FilePart {
    type V = FilePartView;

    open spec fn view(&self) -> FilePartView {
        FilePartView {
            name: self.name@,
            file_name: self.file_name@,
            mime: self.mime@,
            data: self.data@,
        }
    }
}

#[derive(Debug, Clone, PartialEq)]
pub enum Body {
    Empty,
    Json(Payload),
    Multipart(FilePart),
}

pub enum BodyView {
    Empty,
    Json(PayloadView),
    Multipart(FilePartView),
}

impl View for Body {
    type V = BodyView;

    open spec fn view(&self) -> BodyView {
        match self {
            Body::Empty => BodyView::Empty,
            Body::Json(p) => BodyView::Json(p@),
            Body::Multipart(f) => BodyView::Multipart(f@),
        }
    }
}

/// Everything that is put on the wire for one call. Headers are sent in the
/// order in which they stand.
#[derive(Debug, Clone, PartialEq)]
pub struct HttpRequest {
    pub method: Method,
    pub url: String,
    pub headers: Vec<(String, String)>,
    pub body: Body,
}

pub struct HttpRequestView {
    pub method: Method,
    pub url: Seq<char>,
    pub headers: Seq<(Seq<char>, Seq<char>)>,
    pub body: BodyView,
}

impl View for HttpRequest {
    type V = HttpRequestView;

    open spec fn view(&self) -> HttpRequestView {
        HttpRequestView {
            method: self.method,
            url: self.url@,
            headers: self.headers.deep_view(),
            body: self.body@,
        }
    }
}

/// The address of `path` below `base`.
pub open spec fn url_of(base: Seq<char>, path: Seq<char>) -> Seq<char> {
    base + "/"@ + path
}

/// What the backend is asked to send back after a write: the rows where the
/// address selects columns, nothing otherwise.
pub open spec fn prefer_of(url: Seq<char>) -> Seq<char> {
    if has_substring(url, "select="@) {
        "return=representation"@
    } else {
        "return=minimal"@
    }
}

/// The key header, which every call carries.
pub open spec fn key_header(api_key: Seq<char>) -> Seq<(Seq<char>, Seq<char>)> {
    seq![("apikey"@, api_key)]
}

/// The bearer header for `token`.
pub open spec fn bearer_header(token: Seq<char>) -> Seq<(Seq<char>, Seq<char>)> {
    seq![("Authorization"@, "Bearer "@ + token)]
}

/// The bearer header of a call that may go without one: none where there is
/// no token or the token is empty.
pub open spec fn optional_bearer(token: Option<Seq<char>>) -> Seq<(Seq<char>, Seq<char>)> {
    match token {
        Some(t) => if t.len() > 0 {
            bearer_header(t)
        } else {
            Seq::empty()
        },
        None => Seq::empty(),
    }
}

/// The two headers that go with a JSON body.
pub open spec fn json_headers(url: Seq<char>) -> Seq<(Seq<char>, Seq<char>)> {
    seq![("Content-Type"@, "application/json"@), ("Prefer"@, prefer_of(url))]
}

/// What `request` sends.
pub open spec fn request_of(
    client: ClientView,
    method: Method,
    path: Seq<char>,
    body: PayloadView,
    access_token: Option<Seq<char>>,
    form: Option<FilePartView>,
) -> HttpRequestView {
    let url = url_of(client.base_url, path);
    let common = key_header(client.api_key) + optional_bearer(access_token);
    match form {
        Some(part) => HttpRequestView { method, url, headers: common, body: BodyView::Multipart(part) },
        None => HttpRequestView {
            method,
            url,
            headers: common + json_headers(url),
            body: BodyView::Json(body),
        },
    }
}

/// What `request_bytes` sends.
pub open spec fn bytes_request_of(
    client: ClientView,
    path: Seq<char>,
    access_token: Option<Seq<char>>,
) -> HttpRequestView {
    HttpRequestView {
        method: Method::GET,
        url: url_of(client.base_url, path),
        headers: key_header(client.api_key) + bearer_header(
            match access_token {
                Some(t) => t,
                None => Seq::empty(),
            },
        ),
        body: BodyView::Empty,
    }
}

/// Whether a status counts as success.
pub open spec fn is_success(status: u16) -> bool {
    200 <= status <= 299
}

/// The error with the status and nothing else.
pub open spec fn bare_error(status: u16) -> ErrorView {
    ErrorView {
        code: Some(decimal(status as nat)),
        status_code: None,
        error_code: None,
        error: None,
        msg: None,
        message: None,
        details: None,
    }
}

/// The error for a refused reply: the status, and the fields of the body
/// where it could be read as an error.
pub open spec fn reply_error(status: u16, decoded: Option<ErrorView>) -> ErrorView {
    match decoded {
        Some(d) => ErrorView {
            code: Some(decimal(status as nat)),
            status_code: None,
            error_code: d.error_code,
            error: d.error,
            msg: d.msg,
            message: d.message,
            details: d.details,
        },
        None => bare_error(status),
    }
}

/// The error for a call that got no reply.
pub open spec fn failure_error(status: Option<u16>, message: Seq<char>) -> ErrorView {
    ErrorView {
        code: Some(
            decimal(
                match status {
                    Some(s) => s as nat,
                    None => 500,
                },
            ),
        ),
        status_code: None,
        error_code: None,
        error: None,
        msg: Some(message),
        message: None,
        details: None,
    }
}

pub open spec fn error_option_view(e: Option<Error>) -> Option<ErrorView> {
    match e {
        Some(e) => Some(e@),
        None => None,
    }
}

pub open spec fn part_option_view(f: Option<FilePart>) -> Option<FilePartView> {
    match f {
        Some(f) => Some(f@),
        None => None,
    }
}

/// The JSON object without members.
pub fn empty_object() -> (r: Payload)
    ensures
        r@ == PayloadView::Object(Seq::empty()),
{
    let members: Vec<(String, JsonField)> = Vec::new();
    assert(members.deep_view() =~= Seq::empty());
    Payload::Object(members)
}

/// A copy of an optional text.
pub fn copy_text(s: &Option<String>) -> (r: Option<String>)
    ensures
        r.deep_view() == s.deep_view(),
{
    match s {
        Some(t) => Some(t.clone()),
        None => None,
    }
}

impl Clone for SupabaseClient {
    fn clone(&self) -> (r: Self)
        ensures
            r@ == self@,
    {
        SupabaseClient {
            base_url: self.base_url.clone(),
            api_key: self.api_key.clone(),
            access_token: copy_text(&self.access_token),
            refresh_token: copy_text(&self.refresh_token),
        }
    }
}

impl SupabaseClient {
    /// A client with no address, no key and no session.
    pub fn new() -> (r: Self)
        ensures
            r@ == (ClientView {
                base_url: Seq::empty(),
                api_key: Seq::empty(),
                access_token: None,
                refresh_token: None,
            }),
    {
        SupabaseClient {
            base_url: String::new(),
            api_key: String::new(),
            access_token: None,
            refresh_token: None,
        }
    }

    /// The client with its address set to `url`. Any session is dropped.
    pub fn base_url(self, url: &str) -> (r: Self)
        ensures
            r@ == (ClientView {
                base_url: url@,
                api_key: self@.api_key,
                access_token: None,
                refresh_token: None,
            }),
    {
        SupabaseClient {
            base_url: String::from_str(url),
            api_key: self.api_key,
            access_token: None,
            refresh_token: None,
        }
    }

    /// The client with its key set to `key`. Any session is dropped.
    pub fn api_key(self, key: &str) -> (r: Self)
        ensures
            r@ == (ClientView {
                base_url: self@.base_url,
                api_key: key@,
                access_token: None,
                refresh_token: None,
            }),
    {
        SupabaseClient {
            base_url: self.base_url,
            api_key: String::from_str(key),
            access_token: None,
            refresh_token: None,
        }
    }

    /// The session's access token, or the empty text where there is none.
    pub fn session_token(&self) -> (r: String)
        ensures
            r@ == session_token_of(self@),
    {
        match &self.access_token {
            Some(t) => t.clone(),
            None => String::new(),
        }
    }

    /// The call for `path`: the address below the client's, the key header,
    /// a bearer header where a token is given and not empty, and either the
    /// form or, with the two headers that announce it, the JSON body.
    pub fn request(
        &self,
        method: Method,
        path: &str,
        body: Payload,
        access_token: Option<&str>,
        form: Option<FilePart>,
    ) -> (r: HttpRequest)
        ensures
            r@ == request_of(
                self@,
                method,
                path@,
                body@,
                access_token.deep_view(),
                part_option_view(form),
            ),
    {
        let mut url = self.base_url.clone();
        url.append("/");
        url.append(path);
        let mut headers: Vec<(String, String)> = Vec::new();
        headers.push((String::from_str("apikey"), self.api_key.clone()));
        match access_token {
            Some(t) => {
                if !t.is_empty() {
                    let mut bearer = String::from_str("Bearer ");
                    bearer.append(t);
                    headers.push((String::from_str("Authorization"), bearer));
                }
            },
            None => {},
        }
        assert(headers.deep_view() =~= key_header(self@.api_key) + optional_bearer(
            access_token.deep_view(),
        ));
        match form {
            Some(part) => HttpRequest { method, url, headers, body: Body::Multipart(part) },
            None => {
                let prefer = if contains_text(url.as_str(), "select=") {
                    "return=representation"
                } else {
                    "return=minimal"
                };
                headers.push((String::from_str("Content-Type"), String::from_str("application/json")));
                headers.push((String::from_str("Prefer"), String::from_str(prefer)));
                assert(headers.deep_view() =~= key_header(self@.api_key) + optional_bearer(
                    access_token.deep_view(),
                ) + json_headers(url@));
                HttpRequest { method, url, headers, body: Body::Json(body) }
            },
        }
    }

    /// The call that fetches `path` as raw bytes: a `GET` with the key header
    /// and a bearer header, whose token is empty where none is given.
    pub fn request_bytes(&self, path: &str, access_token: Option<&str>) -> (r: HttpRequest)
        ensures
            r@ == bytes_request_of(self@, path@, access_token.deep_view()),
    {
        let mut url = self.base_url.clone();
        url.append("/");
        url.append(path);
        let mut bearer = String::from_str("Bearer ");
        match access_token {
            Some(t) => {
                bearer.append(t);
            },
            None => {
                assert(bearer@ =~= "Bearer "@ + Seq::<char>::empty());
            },
        }
        let mut headers: Vec<(String, String)> = Vec::new();
        headers.push((String::from_str("apikey"), self.api_key.clone()));
        headers.push((String::from_str("Authorization"), bearer));
        assert(headers.deep_view() =~= bytes_request_of(
            self@,
            path@,
            access_token.deep_view(),
        ).headers);
        HttpRequest { method: Method::GET, url, headers, body: Body::Empty }
    }
}

pub open spec fn session_token_of(client: ClientView) -> Seq<char> {
    match client.access_token {
        Some(t) => t,
        None => Seq::empty(),
    }
}

/// Whether a reply with this status is accepted.
pub fn accepts(status: u16) -> (r: bool)
    ensures
        r == is_success(status),
{
    200 <= status && status <= 299
}

/// Reads a reply with a text body. A status from 200 to 299 is success and
/// hands the text on. Any other status is an error with the status as its code
/// and, where the body was read as an error, that error's fields.
pub fn classify(status: u16, text: String, decoded: Option<Error>) -> (r: Result<
    Response<String>,
    Error,
>)
    ensures
        match r {
            Ok(res) => is_success(status) && res.code == status && res.data == Some(text),
            Err(e) => !is_success(status) && e@ == reply_error(status, error_option_view(decoded)),
        },
{
    if accepts(status) {
        return Ok(Response { code: status, data: Some(text) });
    }
    let code = Some(decimal_text(status));
    match decoded {
        Some(d) => Err(
            Error {
                code,
                status_code: None,
                error_code: d.error_code,
                error: d.error,
                msg: d.msg,
                message: d.message,
                details: d.details,
            },
        ),
        None => Err(
            Error {
                code,
                status_code: None,
                error_code: None,
                error: None,
                msg: None,
                message: None,
                details: None,
            },
        ),
    }
}

/// Reads a reply with a body of raw bytes: success as for text, and on any
/// other status the bare error.
pub fn classify_bytes(status: u16, bytes: Vec<u8>) -> (r: Result<Response<Vec<u8>>, Error>)
    ensures
        match r {
            Ok(res) => is_success(status) && res.code == status && res.data == Some(bytes),
            Err(e) => !is_success(status) && e@ == bare_error(status),
        },
{
    if accepts(status) {
        return Ok(Response { code: status, data: Some(bytes) });
    }
    Err(
        Error {
            code: Some(decimal_text(status)),
            status_code: None,
            error_code: None,
            error: None,
            msg: None,
            message: None,
            details: None,
        },
    )
}

/// The error for a call that was not answered: the status that the transport
/// names, or 500 where it names none, and its message.
pub fn transport_error(status: Option<u16>, message: String) -> (r: Error)
    ensures
        r@ == failure_error(status, message@),
{
    let code = match status {
        Some(s) => decimal_text(s),
        None => decimal_text(500),
    };
    Error {
        code: Some(code),
        status_code: None,
        error_code: None,
        error: None,
        msg: Some(message),
        message: None,
        details: None,
    }
}

} // verus!
