//! What the executor decides: how a request is prepared, and how an answer
//! from the network, or the lack of one, becomes a response.
use crate::interpolation::{request_interpolated, VariableInterpolator};
use crate::json::{
    bool_text, bool_value, empty_object, json_kind, json_member, json_parsed, json_string,
    json_text, parse, string_value, with_member, JsonKind,
};
use crate::models::{fresh_id, Request, Response, ResponseTiming, Timestamp};
use crate::string_map::StringMap;
use vstd::prelude::*;

verus! {

/// How many seconds a call may take where nothing else is asked for.
pub const DEFAULT_TIMEOUT_SECS: u64 = 30;

/// How many redirects a call follows before it fails.
pub const REDIRECT_LIMIT: usize = 10;

/// The settings of the executor.
pub struct RequestExecutor {
    timeout_secs: u64,
}

/// What came back from the network: the status, the headers in the order
/// in which they came, each with its value where that is text, the body,
/// and the time that the call took.
pub struct RawResponse {
    pub status: u16,
    pub headers: Vec<(String, Option<String>)>,
    pub body: String,
    pub elapsed_secs: u64,
    pub elapsed_subsec_nanos: u32,
}

/// Why no answer came.
pub struct TransportFailure {
    pub message: String,
    pub details: String,
}

/// The whole milliseconds in a span of `secs` seconds and `subsec_nanos`
/// nanoseconds, as far as 64 bits hold them.
pub open spec fn whole_millis(secs: u64, subsec_nanos: u32) -> u64 {
    ((secs * 1000 + subsec_nanos / 1_000_000) % 0x1_0000_0000_0000_0000) as u64
}

/// The headers that are kept of those that came: the ones whose value is
/// text. Of several with one name the last stays.
pub open spec fn kept_headers(raw: Seq<(String, Option<String>)>) -> Map<Seq<char>, Seq<char>>
    decreases raw.len(),
{
    if raw.len() == 0 {
        Map::empty()
    } else {
        let before = kept_headers(raw.drop_last());
        match raw.last().1 {
            Some(value) => before.insert(raw.last().0@, value@),
            None => before,
        }
    }
}

/// Whether `body` is what a body text becomes: the document it parses to
/// where it is valid JSON, else the JSON string that holds the text.
pub open spec fn is_body_of(body: serde_json::Value, text: Seq<char>) -> bool {
    match json_parsed(text) {
        Some(doc) => json_text(body) == doc,
        None => json_string(json_text(body)) == Some(text),
    }
}

/// Whether `body` is the body of a response that stands for a failure: an
/// object that holds `error` as true, the message and the details, and
/// nothing else.
pub open spec fn is_failure_body(body: serde_json::Value, message: Seq<char>, details: Seq<char>) -> bool {
    let doc = json_text(body);
    &&& json_kind(doc) == JsonKind::Object
    &&& json_member(doc, "error"@) == Some(bool_text(true))
    &&& json_member(doc, "message"@) matches Some(m) && json_string(m) == Some(message)
    &&& json_member(doc, "details"@) matches Some(d) && json_string(d) == Some(details)
    &&& forall|key: Seq<char>|
        key != "error"@ && key != "message"@ && key != "details"@ ==> (#[trigger] json_member(
            doc,
            key,
        )) is None
}

/// The body of a response from the text that came and from what parsing
/// it gave.
pub fn body_from_parsed(text: String, parsed: Option<serde_json::Value>) -> (body:
    serde_json::Value)
    ensures
        match parsed {
            Some(doc) => body == doc,
            None => json_string(json_text(body)) == Some(text@),
        },
{
    match parsed {
        Some(doc) => doc,
        None => string_value(text),
    }
}

impl RequestExecutor {
    /// The time, in seconds, after which a call fails.
    pub closed spec fn timeout(self) -> u64 {
        self.timeout_secs
    }

    /// An executor whose calls may take 30 seconds.
    pub fn new() -> (e: RequestExecutor)
        ensures
            e.timeout() == DEFAULT_TIMEOUT_SECS,
    {
        RequestExecutor { timeout_secs: DEFAULT_TIMEOUT_SECS }
    }

    /// An executor whose calls may take `timeout_secs` seconds.
    pub fn with_timeout(timeout_secs: u64) -> (e: RequestExecutor)
        ensures
            e.timeout() == timeout_secs,
    {
        RequestExecutor { timeout_secs }
    }

    /// The time, in seconds, after which a call fails.
    pub fn timeout_secs(&self) -> (t: u64)
        ensures
            t == self.timeout(),
    {
        self.timeout_secs
    }

    /// How many redirects a call follows before it fails.
    pub fn redirect_limit(&self) -> (n: usize)
        ensures
            n == REDIRECT_LIMIT,
    {
        REDIRECT_LIMIT
    }

    /// The headers to keep of those that came.
    pub fn keep_headers(raw: &Vec<(String, Option<String>)>) -> (kept: StringMap)
        ensures
            kept@ == kept_headers(raw@),
    {
        let mut kept = StringMap::new();
        let mut i: usize = 0;
        assert(raw@.take(0) == Seq::<(String, Option<String>)>::empty());
        while i < raw.len()
            invariant
                i <= raw.len(),
                kept@ == kept_headers(raw@.take(i as int)),
            decreases raw.len() - i,
        {
            proof {
                assert(raw@.take(i + 1).drop_last() == raw@.take(i as int));
            }
            match &raw[i].1 {
                Some(value) => {
                    kept.insert(raw[i].0.clone(), value.clone());
                },
                None => {},
            }
            i = i + 1;
        }
        assert(raw@.take(raw.len() as int) == raw@);
        kept
    }

    /// The response for what came back, with the identifier `id`, made at
    /// the time `at`. Of the timing only the total is known.
    pub fn response_from(raw: RawResponse, id: uuid::Uuid, at: Timestamp) -> (r: Response)
        ensures
            r.id == id,
            r.request_id is None,
            r.status == raw.status,
            r.headers@ == kept_headers(raw.headers@),
            is_body_of(r.body, raw.body@),
            r.timing == (ResponseTiming {
                total_ms: whole_millis(raw.elapsed_secs, raw.elapsed_subsec_nanos),
                dns_lookup_ms: None,
                tcp_connect_ms: None,
                tls_handshake_ms: None,
                request_ms: None,
            }),
            r.timestamp == at,
    {
        let headers = Self::keep_headers(&raw.headers);
        let parsed = parse(raw.body.as_str());
        let body = body_from_parsed(raw.body, parsed);
        let millis: u128 = raw.elapsed_secs as u128 * 1000 + (raw.elapsed_subsec_nanos
            / 1_000_000) as u128;
        let total_ms = (millis % 0x1_0000_0000_0000_0000) as u64;
        Response {
            id,
            request_id: None,
            status: raw.status,
            headers,
            body,
            timing: ResponseTiming::total(total_ms),
            timestamp: at,
        }
    }

    /// The response that stands for a failure below HTTP: status 0, no
    /// headers, no time taken, and a body that tells the error.
    pub fn failure_response(failure: TransportFailure, id: uuid::Uuid, at: Timestamp) -> (r:
        Response)
        ensures
            r.id == id,
            r.request_id is None,
            r.status == 0,
            r.headers@ == Map::<Seq<char>, Seq<char>>::empty(),
            is_failure_body(r.body, failure.message@, failure.details@),
            r.timing == (ResponseTiming {
                total_ms: 0,
                dns_lookup_ms: None,
                tcp_connect_ms: None,
                tls_handshake_ms: None,
                request_ms: None,
            }),
            r.timestamp == at,
    {
        proof {
            reveal_strlit("error");
            reveal_strlit("message");
            reveal_strlit("details");
        }
        assert("error"@.len() == 5 && "message"@.len() == 7 && "details"@.len() == 7);
        assert("message"@[0] == 'm' && "details"@[0] == 'd');
        let body = empty_object();
        let body = with_member(body, "error", bool_value(true));
        let body = with_member(body, "message", string_value(failure.message));
        let body = with_member(body, "details", string_value(failure.details));
        Response {
            id,
            request_id: None,
            status: 0,
            headers: StringMap::new(),
            body,
            timing: ResponseTiming::new(),
            timestamp: at,
        }
    }

    /// The request as it is sent: the template with its placeholders
    /// substituted.
    pub fn prepare(&self, request: &Request, interpolator: &VariableInterpolator) -> (out: Request)
        ensures
            request_interpolated(*request, out, interpolator@),
    {
        interpolator.interpolate_request(request)
    }

    /// The response for what came back, under a fresh identifier and the
    /// present time.
    pub fn complete(&self, raw: RawResponse) -> (r: Response)
        ensures
            r.request_id is None,
            r.status == raw.status,
            r.headers@ == kept_headers(raw.headers@),
            is_body_of(r.body, raw.body@),
            r.timing.total_ms == whole_millis(raw.elapsed_secs, raw.elapsed_subsec_nanos),
    {
        let id = fresh_id();
        let at = Timestamp::now();
        Self::response_from(raw, id, at)
    }

    /// The response for the outcome of a call, whichever way it went: a
    /// failure below HTTP becomes a response with status 0.
    pub fn settle(&self, outcome: Result<RawResponse, TransportFailure>) -> (r: Response)
        ensures
            match outcome {
                Ok(raw) => {
                    &&& r.status == raw.status
                    &&& r.headers@ == kept_headers(raw.headers@)
                    &&& is_body_of(r.body, raw.body@)
                    &&& r.timing.total_ms == whole_millis(
                        raw.elapsed_secs,
                        raw.elapsed_subsec_nanos,
                    )
                },
                Err(failure) => {
                    &&& r.status == 0
                    &&& r.headers@ == Map::<Seq<char>, Seq<char>>::empty()
                    &&& is_failure_body(r.body, failure.message@, failure.details@)
                    &&& r.timing.total_ms == 0
                },
            },
            r.request_id is None,
    {
        let id = fresh_id();
        let at = Timestamp::now();
        match outcome {
            Ok(raw) => Self::response_from(raw, id, at),
            Err(failure) => Self::failure_response(failure, id, at),
        }
    }
}

impl Default for RequestExecutor {
    fn default() -> (e: RequestExecutor)
        ensures
            e.timeout() == DEFAULT_TIMEOUT_SECS,
    {
        RequestExecutor::new()
    }
}

} // verus!
