//! Buckets and the objects in them: what each call sends, and the addresses
//! under which an object can be fetched.

use vstd::prelude::*;
use vstd::string::*;
use crate::client::{
    bytes_request_of, empty_object, request_of, session_token_of, ClientView, Error, FilePart,
    FilePartView, HttpRequest, JsonField, JsonFieldView, Method, Payload, PayloadView, Response,
    SupabaseClient,
};

verus! {

#[derive(Debug, Clone, PartialEq)]
pub struct BucketResponse {
    pub id: String,
    pub name: String,
    pub public: bool,
    pub file_size_limit: Option<i64>,
    pub allowed_mime_types: Option<Vec<String>>,
    pub created_at: String,
    pub updated_at: String,
}

/// The settings of a bucket that can be changed. A setting that is `None` is
/// sent as null.
#[derive(Debug, Clone, PartialEq)]
pub struct UpdateRequest {
    pub public: Option<bool>,
    pub file_size_limit: Option<i64>,
    pub allowed_mime_types: Option<Vec<String>>,
}

#[derive(Debug, Clone, PartialEq)]
pub struct MessageResponse {
    pub message: String,
}

/// The signed path of an object, as the backend gives it: it starts below the
/// storage root.
#[derive(Debug, Clone, PartialEq)]
pub struct SignedUrlResponse {
    pub url: String,
}

#[derive(Debug, Clone, PartialEq)]
pub struct FileResponse {
    pub key: String,
    pub id: String,
}

#[derive(Debug, Clone, PartialEq)]
pub struct FilesResponse {
    pub id: String,
    pub name: String,
    pub updated_at: String,
    pub created_at: String,
    pub last_accessed_at: String,
    pub metadata: FileMetadata,
}

#[derive(Debug, Clone, PartialEq)]
pub struct FileMetadata {
    pub e_tag: String,
    pub size: i64,
    pub mimetype: String,
    pub cache_control: String,
    pub last_modified: String,
}

/// One bucket, as seen by one client.
#[derive(Debug, PartialEq)]
pub struct BucketSchema {
    pub client: SupabaseClient,
    pub name: String,
}

pub struct BucketView {
    pub client: ClientView,
    pub name: Seq<char>,
}

impl View for BucketSchema {
    type V = BucketView;

    open spec fn view(&self) -> BucketView {
        BucketView { client: self.client@, name: self.name@ }
    }
}

impl Clone for BucketSchema {
    fn clone(&self) -> (r: Self)
        ensures
            r@ == self@,
    {
        BucketSchema { client: self.client.clone(), name: self.name.clone() }
    }
}

/// The path of a bucket.
pub open spec fn bucket_path(name: Seq<char>) -> Seq<char> {
    "storage/v1/bucket/"@ + name
}

/// The path of an object in a bucket.
pub open spec fn object_path(name: Seq<char>, file_path: Seq<char>) -> Seq<char> {
    "storage/v1/object/"@ + name + "/"@ + file_path
}

/// The path under which a bucket's objects are listed.
pub open spec fn list_path(name: Seq<char>) -> Seq<char> {
    "storage/v1/object/list/"@ + name
}

/// The path under which an object's address is signed.
pub open spec fn sign_path(name: Seq<char>, file_path: Seq<char>) -> Seq<char> {
    "storage/v1/object/sign/"@ + name + "/"@ + file_path
}

/// The path to which an object is uploaded.
pub open spec fn upload_path(name: Seq<char>, file_path: Seq<char>, upsert: bool) -> Seq<char> {
    object_path(name, file_path) + "?upsert="@ + (if upsert {
        "true"@
    } else {
        "false"@
    })
}

/// The address of an object in a public bucket.
pub open spec fn public_url(base: Seq<char>, name: Seq<char>, file_path: Seq<char>) -> Seq<char> {
    base + "/storage/v1/object/public/"@ + name + "/"@ + file_path
}

/// The address for a signed path.
pub open spec fn signed_url_of(base: Seq<char>, signed: Seq<char>) -> Seq<char> {
    base + "/storage/v1"@ + signed
}

/// The form that carries an object's bytes.
pub open spec fn file_form(data: Seq<u8>) -> FilePartView {
    FilePartView {
        name: "file"@,
        file_name: "filename"@,
        mime: "application/octet-stream"@,
        data,
    }
}

/// The body that makes a bucket.
pub open spec fn new_bucket(name: Seq<char>, public: bool) -> PayloadView {
    PayloadView::Object(
        seq![
            ("id"@, JsonFieldView::Text(name)),
            ("name"@, JsonFieldView::Text(name)),
            ("public"@, JsonFieldView::Bool(public)),
        ],
    )
}

pub open spec fn flag_field(v: Option<bool>) -> JsonFieldView {
    match v {
        Some(b) => JsonFieldView::Bool(b),
        None => JsonFieldView::Null,
    }
}

pub open spec fn number_field(v: Option<i64>) -> JsonFieldView {
    match v {
        Some(n) => JsonFieldView::Int(n),
        None => JsonFieldView::Null,
    }
}

pub open spec fn list_field(v: Option<Vec<String>>) -> JsonFieldView {
    match v {
        Some(items) => JsonFieldView::List(items.deep_view()),
        None => JsonFieldView::Null,
    }
}

/// The body that changes a bucket's settings.
pub open spec fn bucket_update(data: UpdateRequest) -> PayloadView {
    PayloadView::Object(
        seq![
            ("public"@, flag_field(data.public)),
            ("file_size_limit"@, number_field(data.file_size_limit)),
            ("allowed_mime_types"@, list_field(data.allowed_mime_types)),
        ],
    )
}

/// The body that lists a bucket's objects by name.
pub open spec fn listing(limit: i32, offset: i32) -> PayloadView {
    PayloadView::Object(
        seq![
            ("limit"@, JsonFieldView::Int(limit as i64)),
            ("offset"@, JsonFieldView::Int(offset as i64)),
            ("prefix"@, JsonFieldView::Text(Seq::empty())),
            (
                "sortBy"@,
                JsonFieldView::Object(seq![("column"@, "name"@), ("order"@, "asc"@)]),
            ),
        ],
    )
}

/// The body that searches a bucket's objects.
pub open spec fn searching(term: Seq<char>, limit: i32) -> PayloadView {
    PayloadView::Object(
        seq![
            ("search"@, JsonFieldView::Text(term)),
            ("limit"@, JsonFieldView::Int(limit as i64)),
            ("prefix"@, JsonFieldView::Text(Seq::empty())),
        ],
    )
}

/// The body that asks for a signed address.
pub open spec fn signing(expires_in: i64) -> PayloadView {
    PayloadView::Object(seq![("expiresIn"@, JsonFieldView::Int(expires_in))])
}

/// What a call on a bucket sends: the session's token, and no form.
pub open spec fn session_call(c: ClientView, method: Method, path: Seq<char>, body: PayloadView) -> crate::client::HttpRequestView {
    request_of(c, method, path, body, Some(session_token_of(c)), None)
}

fn text_field(s: &str) -> (r: JsonField)
    ensures
        r.deep_view() == JsonFieldView::Text(s@),
{
    JsonField::Text(String::from_str(s))
}

impl SupabaseClient {
    /// The bucket `name`, as seen by this client.
    pub fn bucket(&self, name: &str) -> (r: BucketSchema)
        ensures
            r@ == (BucketView { client: self@, name: name@ }),
    {
        BucketSchema { client: self.clone(), name: String::from_str(name) }
    }

    fn session_request(&self, method: Method, path: &str, body: Payload) -> (r: HttpRequest)
        ensures
            r@ == session_call(self@, method, path@, body@),
    {
        let token = self.session_token();
        self.request(method, path, body, Some(token.as_str()), None)
    }

    /// The call that makes the bucket `name`.
    pub fn create_bucket(&self, name: &str, public: bool) -> (r: HttpRequest)
        ensures
            r@ == session_call(self@, Method::POST, "storage/v1/bucket"@, new_bucket(name@, public)),
    {
        let mut members: Vec<(String, JsonField)> = Vec::new();
        members.push((String::from_str("id"), text_field(name)));
        members.push((String::from_str("name"), text_field(name)));
        members.push((String::from_str("public"), JsonField::Bool(public)));
        assert(members.deep_view() =~= new_bucket(name@, public)->Object_0);
        self.session_request(Method::POST, "storage/v1/bucket", Payload::Object(members))
    }

    /// The call that lists the buckets.
    pub fn list_buckets(&self) -> (r: HttpRequest)
        ensures
            r@ == session_call(
                self@,
                Method::GET,
                "storage/v1/bucket"@,
                PayloadView::Object(Seq::empty()),
            ),
    {
        self.session_request(Method::GET, "storage/v1/bucket", empty_object())
    }
}

impl BucketSchema {
    fn bucket_path(&self) -> (r: String)
        ensures
            r@ == bucket_path(self@.name),
    {
        let mut path = String::from_str("storage/v1/bucket/");
        path.append(self.name.as_str());
        path
    }

    fn object_path(&self, file_path: &str) -> (r: String)
        ensures
            r@ == object_path(self@.name, file_path@),
    {
        let mut path = String::from_str("storage/v1/object/");
        path.append(self.name.as_str());
        path.append("/");
        path.append(file_path);
        path
    }

    fn list_path(&self) -> (r: String)
        ensures
            r@ == list_path(self@.name),
    {
        let mut path = String::from_str("storage/v1/object/list/");
        path.append(self.name.as_str());
        path
    }

    /// The call that reads the bucket's settings.
    pub fn get_bucket(&self) -> (r: HttpRequest)
        ensures
            r@ == session_call(
                self@.client,
                Method::GET,
                bucket_path(self@.name),
                PayloadView::Object(Seq::empty()),
            ),
    {
        let path = self.bucket_path();
        self.client.session_request(Method::GET, path.as_str(), empty_object())
    }

    /// The call that changes the bucket's settings.
    pub fn update_bucket(&self, data: UpdateRequest) -> (r: HttpRequest)
        ensures
            r@ == session_call(
                self@.client,
                Method::PUT,
                bucket_path(self@.name),
                bucket_update(data),
            ),
    {
        let path = self.bucket_path();
        let public = match data.public {
            Some(b) => JsonField::Bool(b),
            None => JsonField::Null,
        };
        let limit = match data.file_size_limit {
            Some(n) => JsonField::Int(n),
            None => JsonField::Null,
        };
        let types = match data.allowed_mime_types {
            Some(items) => JsonField::List(items),
            None => JsonField::Null,
        };
        let mut members: Vec<(String, JsonField)> = Vec::new();
        members.push((String::from_str("public"), public));
        members.push((String::from_str("file_size_limit"), limit));
        members.push((String::from_str("allowed_mime_types"), types));
        assert(members.deep_view() =~= bucket_update(data)->Object_0);
        self.client.session_request(Method::PUT, path.as_str(), Payload::Object(members))
    }

    /// The call that removes the bucket.
    pub fn delete_bucket(&self) -> (r: HttpRequest)
        ensures
            r@ == session_call(
                self@.client,
                Method::DELETE,
                bucket_path(self@.name),
                PayloadView::Object(Seq::empty()),
            ),
    {
        let path = self.bucket_path();
        self.client.session_request(Method::DELETE, path.as_str(), empty_object())
    }

    /// The call that stores `file_data` under `file_path`, as a form with one
    /// part.
    pub fn upload(&self, file_path: &str, file_data: Vec<u8>, upsert: bool) -> (r: HttpRequest)
        ensures
            r@ == request_of(
                self@.client,
                Method::POST,
                upload_path(self@.name, file_path@, upsert),
                PayloadView::Object(Seq::empty()),
                Some(session_token_of(self@.client)),
                Some(file_form(file_data@)),
            ),
    {
        let form = FilePart {
            name: String::from_str("file"),
            file_name: String::from_str("filename"),
            mime: String::from_str("application/octet-stream"),
            data: file_data,
        };
        let mut path = self.object_path(file_path);
        path.append("?upsert=");
        if upsert {
            path.append("true");
        } else {
            path.append("false");
        }
        let token = self.client.session_token();
        self.client.request(
            Method::POST,
            path.as_str(),
            empty_object(),
            Some(token.as_str()),
            Some(form),
        )
    }

    /// The call that fetches the object under `file_path` as bytes.
    pub fn get(&self, file_path: &str) -> (r: HttpRequest)
        ensures
            r@ == bytes_request_of(
                self@.client,
                object_path(self@.name, file_path@),
                Some(session_token_of(self@.client)),
            ),
    {
        let path = self.object_path(file_path);
        let token = self.client.session_token();
        self.client.request_bytes(path.as_str(), Some(token.as_str()))
    }

    /// The call that lists up to `limit` objects by name, past the first
    /// `offset`.
    pub fn list(&self, limit: i32, offset: i32) -> (r: HttpRequest)
        ensures
            r@ == session_call(
                self@.client,
                Method::POST,
                list_path(self@.name),
                listing(limit, offset),
            ),
    {
        let path = self.list_path();
        let mut order: Vec<(String, String)> = Vec::new();
        order.push((String::from_str("column"), String::from_str("name")));
        order.push((String::from_str("order"), String::from_str("asc")));
        assert(order.deep_view() =~= seq![("column"@, "name"@), ("order"@, "asc"@)]);
        let mut members: Vec<(String, JsonField)> = Vec::new();
        members.push((String::from_str("limit"), JsonField::Int(limit as i64)));
        members.push((String::from_str("offset"), JsonField::Int(offset as i64)));
        members.push((String::from_str("prefix"), JsonField::Text(String::new())));
        members.push((String::from_str("sortBy"), JsonField::Object(order)));
        assert(members.deep_view() =~= listing(limit, offset)->Object_0);
        self.client.session_request(Method::POST, path.as_str(), Payload::Object(members))
    }

    /// The call that lists up to `limit` objects that match `term`.
    pub fn search(&self, term: &str, limit: i32) -> (r: HttpRequest)
        ensures
            r@ == session_call(
                self@.client,
                Method::POST,
                list_path(self@.name),
                searching(term@, limit),
            ),
    {
        let path = self.list_path();
        let mut members: Vec<(String, JsonField)> = Vec::new();
        members.push((String::from_str("search"), text_field(term)));
        members.push((String::from_str("limit"), JsonField::Int(limit as i64)));
        members.push((String::from_str("prefix"), JsonField::Text(String::new())));
        assert(members.deep_view() =~= searching(term@, limit)->Object_0);
        self.client.session_request(Method::POST, path.as_str(), Payload::Object(members))
    }

    /// The call that removes the object under `file_path`.
    pub fn delete(&self, file_path: &str) -> (r: HttpRequest)
        ensures
            r@ == session_call(
                self@.client,
                Method::DELETE,
                object_path(self@.name, file_path@),
                PayloadView::Object(Seq::empty()),
            ),
    {
        let path = self.object_path(file_path);
        self.client.session_request(Method::DELETE, path.as_str(), empty_object())
    }

    /// The address of the object under `file_path` in a public bucket.
    /// Nothing is sent for it, and it never fails.
    pub fn get_public_url(&self, file_path: &str) -> (r: Result<Response<String>, Error>)
        ensures
            r matches Ok(res) && res.code == 200 && res.data.deep_view() == Some(
                public_url(self@.client.base_url, self@.name, file_path@),
            ),
    {
        let mut url = self.client.base_url.clone();
        url.append("/storage/v1/object/public/");
        url.append(self.name.as_str());
        url.append("/");
        url.append(file_path);
        Ok(Response { code: 200, data: Some(url) })
    }

    /// The call that asks for an address of the object under `file_path` that
    /// is good for `expires_in` seconds.
    pub fn get_signed_url(&self, file_path: &str, expires_in: i64) -> (r: HttpRequest)
        ensures
            r@ == session_call(
                self@.client,
                Method::POST,
                sign_path(self@.name, file_path@),
                signing(expires_in),
            ),
    {
        let mut path = String::from_str("storage/v1/object/sign/");
        path.append(self.name.as_str());
        path.append("/");
        path.append(file_path);
        let mut members: Vec<(String, JsonField)> = Vec::new();
        members.push((String::from_str("expiresIn"), JsonField::Int(expires_in)));
        assert(members.deep_view() =~= signing(expires_in)->Object_0);
        self.client.session_request(Method::POST, path.as_str(), Payload::Object(members))
    }

    /// The answer to `get_signed_url`: the status that came, and the signed
    /// path made into an address below the client's.
    pub fn signed_url(&self, code: u16, signed: &SignedUrlResponse) -> (r: Response<String>)
        ensures
            r.code == code,
            r.data.deep_view() == Some(signed_url_of(self@.client.base_url, signed.url@)),
    {
        let mut url = self.client.base_url.clone();
        url.append("/storage/v1");
        url.append(signed.url.as_str());
        Response { code, data: Some(url) }
    }
}

} // verus!
