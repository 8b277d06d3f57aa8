use vstd::prelude::*;
use vstd::string::StringExecFns;
use crate::records::{has_required_fields, EntryError, listing_of, DeleteResponse, FileListResponse, UploadResponse};
use crate::text::{decimal, decimal_string};

verus! {

/// The root of the service's REST interface.
pub const API_BASE: &'static str = "https://api.awau.moe";

/// The User-Agent header sent with every request.
pub const USER_AGENT: &'static str = "WhatsThisClient (https://owo.codes/okashi/owo-rs, 0.4.0)";

/// The only status code that the service answers a successful call with.
pub const STATUS_OK: u16 = 200;

/// The status code of a call made with a token that the service refuses.
pub const STATUS_UNAUTHORIZED: u16 = 401;

/// The HTTP method of a request.
#[derive(Debug, Clone, Copy, PartialEq, Eq, Structural)]
pub enum Method {
    Get,
    Post,
    Delete,
}

/// A call to the service, ready to be sent: method, address, query
/// parameters in order, and the two headers.
#[derive(Debug, Clone)]
pub struct Request {
    pub method: Method,
    pub url: String,
    pub query: Vec<(String, String)>,
    pub authorization: String,
    pub user_agent: String,
}

/// How a call to the service failed.
#[derive(Debug, Clone, Copy, PartialEq, Eq, Structural)]
pub enum ApiError {
    /// The service refused the token (status 401).
    Unauthorized,
    /// The service answered with another status than 200 or 401.
    Status(u16),
    /// A 200 reply whose body is not the expected record.
    Decode,
}

/// The query parameters as pairs of character sequences.
pub open spec fn query_view(q: Seq<(String, String)>) -> Seq<(Seq<char>, Seq<char>)> {
    q.map_values(|p: (String, String)| (p.0@, p.1@))
}

/// What a request looks like, field by field.
pub open spec fn request_is(
    r: Request,
    method: Method,
    url: Seq<char>,
    query: Seq<(Seq<char>, Seq<char>)>,
    key: Seq<char>,
) -> bool {
    &&& r.method == method
    &&& r.url@ == url
    &&& query_view(r.query@) == query
    &&& r.authorization@ == key
    &&& r.user_agent@ == USER_AGENT@
}

/// The error for a reply with a status other than 200.
pub open spec fn error_for(status: u16) -> ApiError {
    if status == STATUS_UNAUTHORIZED {
        ApiError::Unauthorized
    } else {
        ApiError::Status(status)
    }
}

/// The outcome of a call whose reply carries a record: the decoded record
/// (`None` when the body did not decode) on 200, else the status error.
pub open spec fn outcome_of<T>(status: u16, decoded: Option<T>) -> Result<T, ApiError> {
    if status == STATUS_OK {
        match decoded {
            Some(v) => Ok(v),
            None => Err(ApiError::Decode),
        }
    } else {
        Err(error_for(status))
    }
}

/// The outcome of a shortening call: the body itself on 200, else the
/// status error.
pub open spec fn shorten_outcome_of(status: u16, body: String) -> Result<String, ApiError> {
    if status == STATUS_OK {
        Ok(body)
    } else {
        Err(error_for(status))
    }
}

fn service_url(path: &str) -> (r: String)
    ensures
        r@ == API_BASE@ + path@,
{
    let mut s = String::new();
    s.append(API_BASE);
    s.append(path);
    s
}

fn request(method: Method, url: String, query: Vec<(String, String)>, key: &str) -> (r: Request)
    ensures
        r.method == method,
        r.url == url,
        r.query == query,
        r.authorization@ == key@,
        r.user_agent@ == USER_AGENT@,
{
    Request {
        method,
        url,
        query,
        authorization: String::from_str(key),
        user_agent: String::from_str(USER_AGENT),
    }
}

fn param(name: &str, value: &str) -> (r: (String, String))
    ensures
        r.0@ == name@,
        r.1@ == value@,
{
    (String::from_str(name), String::from_str(value))
}

/// The request that shortens `s_url`.
pub fn shorten_request(key: &str, s_url: &str) -> (r: Request)
    ensures
        request_is(
            r,
            Method::Get,
            API_BASE@ + "/shorten/polr"@,
            seq![("action"@, "shorten"@), ("url"@, s_url@)],
            key@,
        ),
{
    let mut query: Vec<(String, String)> = Vec::new();
    query.push(param("action", "shorten"));
    query.push(param("url", s_url));
    let r = request(Method::Get, service_url("/shorten/polr"), query, key);
    assert(query_view(r.query@) =~= seq![("action"@, "shorten"@), ("url"@, s_url@)]);
    r
}

/// The request that lists `entries` objects of the account from `offset`.
pub fn list_files_request(key: &str, entries: i64, offset: i64) -> (r: Request)
    ensures
        request_is(
            r,
            Method::Get,
            API_BASE@ + "/objects"@,
            seq![("limit"@, decimal(entries as int)), ("offset"@, decimal(offset as int))],
            key@,
        ),
{
    let limit = decimal_string(entries);
    let from = decimal_string(offset);
    let mut query: Vec<(String, String)> = Vec::new();
    query.push(param("limit", limit.as_str()));
    query.push(param("offset", from.as_str()));
    let r = request(Method::Get, service_url("/objects"), query, key);
    assert(query_view(r.query@) =~= seq![
        ("limit"@, decimal(entries as int)),
        ("offset"@, decimal(offset as int)),
    ]);
    r
}

/// The request that deletes `object`, a key without its domain.
pub fn delete_request(key: &str, object: &str) -> (r: Request)
    ensures
        request_is(r, Method::Delete, API_BASE@ + "/objects/"@ + object@, seq![], key@),
{
    let mut url = service_url("/objects/");
    url.append(object);
    let r = request(Method::Delete, url, Vec::new(), key);
    assert(query_view(r.query@) =~= seq![]);
    r
}

/// The request that uploads a file; with `associated` the upload is tied to
/// the account, which makes it deletable later.
pub fn upload_request(key: &str, associated: bool) -> (r: Request)
    ensures
        request_is(
            r,
            Method::Post,
            if associated {
                API_BASE@ + "/upload/pomf/associated"@
            } else {
                API_BASE@ + "/upload/pomf"@
            },
            seq![],
            key@,
        ),
{
    let url = if associated {
        service_url("/upload/pomf/associated")
    } else {
        service_url("/upload/pomf")
    };
    let r = request(Method::Post, url, Vec::new(), key);
    assert(query_view(r.query@) =~= seq![]);
    r
}

/// The error for a reply with a status other than 200.
pub fn status_error(status: u16) -> (r: ApiError)
    ensures
        r == error_for(status),
{
    if status == STATUS_UNAUTHORIZED {
        ApiError::Unauthorized
    } else {
        ApiError::Status(status)
    }
}

/// Accepts a 200 reply and turns every other status into its error.
pub fn check_status(status: u16) -> (r: Result<(), ApiError>)
    ensures
        status == STATUS_OK <==> r is Ok,
        r is Err ==> r->Err_0 == error_for(status),
{
    if status == STATUS_OK {
        Ok(())
    } else {
        Err(status_error(status))
    }
}

/// The outcome of a shortening call: the body, unchanged, on 200.
pub fn shorten_outcome(status: u16, body: String) -> (r: Result<String, ApiError>)
    ensures
        r == shorten_outcome_of(status, body),
{
    match check_status(status) {
        Ok(()) => Ok(body),
        Err(e) => Err(e),
    }
}

/// The outcome of a call whose reply carries a record. `decoded` is the
/// body read as that record, `None` when it does not decode.
pub fn response_outcome<T>(status: u16, decoded: Option<T>) -> (r: Result<T, ApiError>)
    ensures
        r == outcome_of(status, decoded),
{
    match check_status(status) {
        Ok(()) => match decoded {
            Some(v) => Ok(v),
            None => Err(ApiError::Decode),
        },
        Err(e) => Err(e),
    }
}

/// The address at which the first uploaded file is shown on `domain`;
/// `None` when the reply lists no file.
pub fn display_url(domain: &str, resp: &UploadResponse) -> (r: Option<String>)
    ensures
        resp.files@.len() == 0 <==> r is None,
        r is Some ==> r->0@ == "https://"@ + domain@ + "/"@ + resp.files@[0].url@,
{
    if resp.files.len() == 0 {
        return None;
    }
    let mut s = String::from_str("https://");
    s.append(domain);
    s.append("/");
    s.append(resp.files[0].url.as_str());
    Some(s)
}

/// Whether a deletion can be confirmed from its record: the fields that the
/// record's kind requires are present, and so is its deletion time.
pub open spec fn deletion_valid(d: crate::records::FileListData) -> bool {
    &&& has_required_fields(d)
    &&& d.deleted_at is Some
}

/// The outcome of a deletion call: as for any record, and a 200 reply
/// whose record of a known kind lacks a field that its kind requires counts
/// as not decoding. Records of an unknown kind are kept, as in a listing.
pub fn delete_outcome(status: u16, decoded: Option<DeleteResponse>) -> (r: Result<DeleteResponse, ApiError>)
    ensures
        r == (match outcome_of(status, decoded) {
            Ok(v) => if has_required_fields(v.data) {
                Ok::<DeleteResponse, ApiError>(v)
            } else {
                Err::<DeleteResponse, ApiError>(ApiError::Decode)
            },
            Err(e) => Err::<DeleteResponse, ApiError>(e),
        }),
{
    match response_outcome(status, decoded) {
        Ok(v) => {
            let complete = match v.data.entry() {
                Err(EntryError::MissingField) => false,
                _ => true,
            };
            if complete {
                Ok(v)
            } else {
                Err(ApiError::Decode)
            }
        },
        Err(e) => Err(e),
    }
}

/// The outcome of a listing call: as for any record, and a 200 reply with
/// a record of a known kind that lacks a field its kind requires counts as
/// not decoding.
pub fn list_outcome(status: u16, decoded: Option<FileListResponse>) -> (r: Result<FileListResponse, ApiError>)
    ensures
        r == (match outcome_of(status, decoded) {
            Ok(v) => if listing_of(v.data@) is Ok {
                Ok::<FileListResponse, ApiError>(v)
            } else {
                Err::<FileListResponse, ApiError>(ApiError::Decode)
            },
            Err(e) => Err::<FileListResponse, ApiError>(e),
        }),
{
    match response_outcome(status, decoded) {
        Ok(v) => {
            let complete = match v.listing() {
                Ok(_) => true,
                Err(_) => false,
            };
            if complete {
                Ok(v)
            } else {
                Err(ApiError::Decode)
            }
        },
        Err(e) => Err(e),
    }
}

/// The line that confirms a deletion; `None` when the record lacks its
/// deletion time or a field that its kind requires.
pub fn delete_confirmation(resp: &DeleteResponse) -> (r: Option<String>)
    ensures
        deletion_valid(resp.data) <==> r is Some,
        r is Some ==> r->0@ == "Success! Object "@ + resp.data.key@ + " deleted at "@
            + resp.data.deleted_at->0@,
{
    match resp.data.entry() {
        Err(EntryError::MissingField) => None,
        _ => match &resp.data.deleted_at {
            None => None,
            Some(at) => {
                let mut s = String::from_str("Success! Object ");
                s.append(resp.data.key.as_str());
                s.append(" deleted at ");
                s.append(at.as_str());
                Some(s)
            },
        },
    }
}

/// The body of an upload: its text fields in order, and the one file part
/// with its field name, file name and MIME type.
#[derive(Debug, Clone)]
pub struct UploadForm {
    pub text_fields: Vec<(String, String)>,
    pub file_field: String,
    pub file_name: String,
    pub mime_type: String,
}

/// The multipart body that uploads a file named `file_name` of type
/// `mime_type`: a `type` text field holding the MIME type, and the file in
/// the `files[]` part.
pub fn upload_form(mime_type: &str, file_name: &str) -> (r: UploadForm)
    ensures
        query_view(r.text_fields@) == seq![("type"@, mime_type@)],
        r.file_field@ == "files[]"@,
        r.file_name@ == file_name@,
        r.mime_type@ == mime_type@,
{
    let mut text_fields: Vec<(String, String)> = Vec::new();
    text_fields.push(param("type", mime_type));
    let r = UploadForm {
        text_fields,
        file_field: String::from_str("files[]"),
        file_name: String::from_str(file_name),
        mime_type: String::from_str(mime_type),
    };
    assert(query_view(r.text_fields@) =~= seq![("type"@, mime_type@)]);
    r
}

/// The line printed above a listing.
pub fn list_header(entries: i64, offset: i64) -> (r: String)
    ensures
        r@ == "Showing "@ + decimal(entries as int) + " entries, from offset "@
            + decimal(offset as int) + "\n"@,
{
    let mut s = String::from_str("Showing ");
    let n = decimal_string(entries);
    s.append(n.as_str());
    s.append(" entries, from offset ");
    let o = decimal_string(offset);
    s.append(o.as_str());
    s.append("\n");
    s
}

/// Every status other than 200 gives an error, and two different such
/// statuses give different errors.
pub proof fn status_errors_are_distinct(a: u16, b: u16)
    requires
        a != STATUS_OK,
        b != STATUS_OK,
        a != b,
    ensures
        outcome_of::<()>(a, Some(())) is Err,
        outcome_of::<()>(a, Some(())) != outcome_of::<()>(b, Some(())),
        error_for(a) != error_for(b),
{
}

/// A 401 reply to any call is reported as a refused token, whatever its
/// body, and never as a plain status error.
pub proof fn unauthorized_is_reported<T>(decoded: Option<T>, body: String)
    ensures
        outcome_of(STATUS_UNAUTHORIZED, decoded) == Err::<T, ApiError>(ApiError::Unauthorized),
        shorten_outcome_of(STATUS_UNAUTHORIZED, body) == Err::<String, ApiError>(ApiError::Unauthorized),
        forall|s: u16| error_for(s) != ApiError::Status(STATUS_UNAUTHORIZED),
{
}

} // verus!
