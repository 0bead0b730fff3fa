//! Request templates and execution results.
use crate::json::{json_text, render};
use crate::string_map::StringMap;
use crate::text::same_text;
use vstd::prelude::*;

verus! {

/// Makes `uuid::Uuid` known as a type whose inside is not looked into.
#[verifier::external_type_specification]
#[verifier::external_body]
pub struct ExUuid(uuid::Uuid);

/// Calls `Uuid::new_v4`, which draws a random identifier: nothing is known
/// of the result.
#[verifier::external_body]
pub(crate) fn fresh_id() -> uuid::Uuid {
    uuid::Uuid::new_v4()
}

/// Calls `Utc::now` and `DateTime::timestamp_millis`, which read the clock
/// as milliseconds since the Unix epoch: nothing is known of the result.
#[verifier::external_body]
pub(crate) fn clock_millis() -> i64 {
    chrono::Utc::now().timestamp_millis()
}

/// Calls `Uuid::eq`, which compares the sixteen bytes of two identifiers.
#[verifier::external_body]
pub(crate) fn same_id(a: &uuid::Uuid, b: &uuid::Uuid) -> (r: bool)
    ensures
        r == (*a == *b),
{
    a == b
}

/// `Uuid::clone` copies the identifier.
pub assume_specification[ <uuid::Uuid as Clone>::clone ](id: &uuid::Uuid) -> (c: uuid::Uuid)
    ensures
        c == *id,
;

/// A point in time, in milliseconds since the Unix epoch.
#[derive(Debug, Clone, Copy, PartialEq, Eq, Structural)]
pub struct Timestamp {
    pub millis: i64,
}

impl Timestamp {
    /// The present time, as the clock gives it.
    pub fn now() -> Timestamp {
        Timestamp { millis: clock_millis() }
    }
}

/// The HTTP methods.
#[derive(Debug, Clone, Copy, PartialEq, Eq, Structural)]
pub enum HttpMethod {
    Get,
    Post,
    Put,
    Patch,
    Delete,
    Head,
    Options,
}

impl HttpMethod {
    /// The method's name in upper case, as it is sent.
    pub open spec fn name(self) -> Seq<char> {
        match self {
            HttpMethod::Get => "GET"@,
            HttpMethod::Post => "POST"@,
            HttpMethod::Put => "PUT"@,
            HttpMethod::Patch => "PATCH"@,
            HttpMethod::Delete => "DELETE"@,
            HttpMethod::Head => "HEAD"@,
            HttpMethod::Options => "OPTIONS"@,
        }
    }

    /// The method's name.
    pub fn as_str(&self) -> (s: &'static str)
        ensures
            s@ == self.name(),
    {
        match self {
            HttpMethod::Get => "GET",
            HttpMethod::Post => "POST",
            HttpMethod::Put => "PUT",
            HttpMethod::Patch => "PATCH",
            HttpMethod::Delete => "DELETE",
            HttpMethod::Head => "HEAD",
            HttpMethod::Options => "OPTIONS",
        }
    }

    /// The method's name, as a text of its own.
    pub fn to_string(&self) -> (s: String)
        ensures
            s@ == self.name(),
    {
        String::from_str(self.as_str())
    }
}

/// The body of a request: a text, or a JSON document.
#[derive(Debug)]
pub enum RequestBody {
    Text(String),
    Json(serde_json::Value),
}

/// What a body holds: a text, or a JSON document.
pub enum BodyView {
    Text(Seq<char>),
    Json(serde_json::Value),
}

impl View for RequestBody {
    type V = BodyView;

    open spec fn view(&self) -> BodyView {
        match *self {
            RequestBody::Text(s) => BodyView::Text(s@),
            RequestBody::Json(v) => BodyView::Json(v),
        }
    }
}

impl RequestBody {
    /// The body as it is written out: a text as it is, a JSON document in
    /// its compact rendering.
    pub open spec fn text(self) -> Seq<char> {
        match self {
            RequestBody::Text(s) => s@,
            RequestBody::Json(v) => json_text(v),
        }
    }

    /// The body as it is written out.
    pub fn to_string(&self) -> (s: String)
        ensures
            s@ == self.text(),
    {
        match self {
            RequestBody::Text(s) => s.clone(),
            RequestBody::Json(v) => render(v),
        }
    }

}

impl Clone for RequestBody {
    fn clone(&self) -> (b: RequestBody)
        ensures
            b@ == self@,
    {
        match self {
            RequestBody::Text(s) => RequestBody::Text(s.clone()),
            RequestBody::Json(v) => RequestBody::Json(v.clone()),
        }
    }
}

/// What an optional text holds.
pub open spec fn optional_text(t: Option<String>) -> Option<Seq<char>> {
    match t {
        Some(s) => Some(s@),
        None => None,
    }
}

/// What an optional body holds.
pub open spec fn optional_body(b: Option<RequestBody>) -> Option<BodyView> {
    match b {
        Some(body) => Some(body@),
        None => None,
    }
}

/// A copy of an optional text.
pub fn duplicate_optional_text(t: &Option<String>) -> (c: Option<String>)
    ensures
        optional_text(c) == optional_text(*t),
{
    match t {
        Some(s) => Some(s.clone()),
        None => None,
    }
}

/// A stored request: a template that may hold placeholders.
#[derive(Debug)]
pub struct Request {
    pub name: String,
    pub method: HttpMethod,
    pub url: String,
    pub headers: StringMap,
    pub query: StringMap,
    pub body: Option<RequestBody>,
    pub notes: Option<String>,
}

/// What a request holds. Headers and query parameters are lists of pairs
/// with distinct keys.
pub struct RequestView {
    pub name: Seq<char>,
    pub method: HttpMethod,
    pub url: Seq<char>,
    pub headers: Seq<(Seq<char>, Seq<char>)>,
    pub query: Seq<(Seq<char>, Seq<char>)>,
    pub body: Option<BodyView>,
    pub notes: Option<Seq<char>>,
}

impl View for Request {
    type V = RequestView;

    open spec fn view(&self) -> RequestView {
        RequestView {
            name: self.name@,
            method: self.method,
            url: self.url@,
            headers: self.headers.pairs(),
            query: self.query.pairs(),
            body: optional_body(self.body),
            notes: optional_text(self.notes),
        }
    }
}

impl Clone for Request {
    fn clone(&self) -> (r: Request)
        ensures
            r@ == self@,
    {
        Request {
            name: self.name.clone(),
            method: self.method,
            url: self.url.clone(),
            headers: self.headers.clone(),
            query: self.query.clone(),
            body: match &self.body {
                Some(b) => Some(b.clone()),
                None => None,
            },
            notes: duplicate_optional_text(&self.notes),
        }
    }
}

/// How long an execution took, in milliseconds: in all, and in each of
/// its phases where that was measured.
#[derive(Debug, Clone, Copy, PartialEq, Eq, Structural)]
pub struct ResponseTiming {
    pub total_ms: u64,
    pub dns_lookup_ms: Option<u64>,
    pub tcp_connect_ms: Option<u64>,
    pub tls_handshake_ms: Option<u64>,
    pub request_ms: Option<u64>,
}

impl ResponseTiming {
    /// A timing with a total of zero and no phase measured.
    pub fn new() -> (t: ResponseTiming)
        ensures
            t == (ResponseTiming {
                total_ms: 0,
                dns_lookup_ms: None,
                tcp_connect_ms: None,
                tls_handshake_ms: None,
                request_ms: None,
            }),
    {
        ResponseTiming {
            total_ms: 0,
            dns_lookup_ms: None,
            tcp_connect_ms: None,
            tls_handshake_ms: None,
            request_ms: None,
        }
    }

    /// A timing that holds the total alone: no single phase is measured.
    pub fn total(total_ms: u64) -> (t: ResponseTiming)
        ensures
            t == (ResponseTiming {
                total_ms,
                dns_lookup_ms: None,
                tcp_connect_ms: None,
                tls_handshake_ms: None,
                request_ms: None,
            }),
    {
        ResponseTiming {
            total_ms,
            dns_lookup_ms: None,
            tcp_connect_ms: None,
            tls_handshake_ms: None,
            request_ms: None,
        }
    }
}

/// The outcome of one execution. A status of 0 stands for a failure below
/// HTTP: no answer came.
#[derive(Debug)]
pub struct Response {
    pub id: uuid::Uuid,
    pub request_id: Option<uuid::Uuid>,
    pub status: u16,
    pub headers: StringMap,
    pub body: serde_json::Value,
    pub timing: ResponseTiming,
    pub timestamp: Timestamp,
}

/// What a response holds.
pub struct ResponseView {
    pub id: uuid::Uuid,
    pub request_id: Option<uuid::Uuid>,
    pub status: u16,
    pub headers: Seq<(Seq<char>, Seq<char>)>,
    pub body: serde_json::Value,
    pub timing: ResponseTiming,
    pub timestamp: Timestamp,
}

impl View for Response {
    type V = ResponseView;

    open spec fn view(&self) -> ResponseView {
        ResponseView {
            id: self.id,
            request_id: self.request_id,
            status: self.status,
            headers: self.headers.pairs(),
            body: self.body,
            timing: self.timing,
            timestamp: self.timestamp,
        }
    }
}

impl Clone for Response {
    fn clone(&self) -> (r: Response)
        ensures
            r@ == self@,
    {
        Response {
            id: self.id.clone(),
            request_id: match &self.request_id {
                Some(id) => Some(id.clone()),
                None => None,
            },
            status: self.status,
            headers: self.headers.clone(),
            body: self.body.clone(),
            timing: self.timing,
            timestamp: self.timestamp,
        }
    }
}

/// What an optional response holds.
pub open spec fn optional_response(r: Option<Response>) -> Option<ResponseView> {
    match r {
        Some(response) => Some(response@),
        None => None,
    }
}

/// Whether `i` is the position of the first request called `name`.
pub open spec fn is_first_named(collection: Seq<Request>, name: Seq<char>, i: int) -> bool {
    &&& 0 <= i < collection.len()
    &&& collection[i].name@ == name
    &&& forall|j: int| 0 <= j < i ==> (#[trigger] collection[j]).name@ != name
}

/// The position of the first request called `name`.
pub open spec fn first_named(collection: Seq<Request>, name: Seq<char>) -> Option<int> {
    if exists|i: int| is_first_named(collection, name, i) {
        Some(choose|i: int| is_first_named(collection, name, i))
    } else {
        None
    }
}

/// Finds the first request called `name`.
pub fn position_of_request(collection: &Vec<Request>, name: &str) -> (r: Option<usize>)
    ensures
        match r {
            Some(i) => first_named(collection@, name@) == Some(i as int) && i < collection@.len(),
            None => first_named(collection@, name@) is None,
        },
{
    let mut i: usize = 0;
    while i < collection.len()
        invariant
            i <= collection.len(),
            forall|j: int| 0 <= j < i ==> (#[trigger] collection@[j]).name@ != name@,
        decreases collection.len() - i,
    {
        if same_text(collection[i].name.as_str(), name) {
            proof {
                assert(is_first_named(collection@, name@, i as int));
                let w = choose|w: int| is_first_named(collection@, name@, w);
                assert(w == i) by {
                    if w < i {
                        assert(collection@[w].name@ != name@);
                    } else if i < w {
                        assert(collection@[i as int].name@ != name@);
                    }
                }
            }
            return Some(i);
        }
        i = i + 1;
    }
    proof {
        if exists|w: int| is_first_named(collection@, name@, w) {
            let w = choose|w: int| is_first_named(collection@, name@, w);
            assert(collection@[w].name@ != name@);
        }
    }
    None
}

/// A collection: requests in their order.
pub type Collection = Vec<Request>;

impl Default for ResponseTiming {
    fn default() -> (t: ResponseTiming)
        ensures
            t == (ResponseTiming {
                total_ms: 0,
                dns_lookup_ms: None,
                tcp_connect_ms: None,
                tls_handshake_ms: None,
                request_ms: None,
            }),
    {
        ResponseTiming::new()
    }
}

/// What an execution works on: the variables in force, the request, and
/// the time at which it began.
#[derive(Debug)]
pub struct ExecutionContext {
    pub variables: StringMap,
    pub request: Request,
    pub timestamp: Timestamp,
}

impl Clone for ExecutionContext {
    fn clone(&self) -> (c: ExecutionContext)
        ensures
            c.variables.pairs() == self.variables.pairs(),
            c.request@ == self.request@,
            c.timestamp == self.timestamp,
    {
        ExecutionContext {
            variables: self.variables.clone(),
            request: self.request.clone(),
            timestamp: self.timestamp,
        }
    }
}

} // verus!
