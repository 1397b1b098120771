//! The decisions around one HTTP round trip: client and request assembly
//! before dispatch, and normalisation of what came back after it.
use vstd::prelude::*;
use vstd::multiset::Multiset;
use vstd::utf8::encode_utf8;
use crate::text::{keep_text_entries, keys_distinct, pairs_view, text_entries};

verus! {

#[verifier::external_type_specification]
#[verifier::external_body]
pub struct ExClient(reqwest::Client);

#[verifier::external_type_specification]
#[verifier::external_body]
pub struct ExRequestBuilder(reqwest::RequestBuilder);

#[verifier::external_type_specification]
#[verifier::external_body]
pub struct ExResponse(reqwest::Response);

#[verifier::external_type_specification]
#[verifier::external_body]
pub struct ExMethod(reqwest::Method);

#[verifier::external_type_specification]
#[verifier::external_body]
pub struct ExError(reqwest::Error);

/// A description of one HTTP call.
#[derive(Clone, Debug)]
pub struct RequestSpec {
    /// The verb, forwarded as a token to the transport.
    pub method: String,
    pub url: String,
    /// Header entries, attached one per entry in this order.
    pub headers: Vec<(String, String)>,
    /// `None` means no body at all, unlike `Some` of an empty string.
    pub body: Option<String>,
    /// Seconds allowed for the whole round trip.
    pub timeout: u64,
}

/// The most header entries a request may carry: far enough below the
/// capacity of the transport's header map that attaching them cannot fail.
pub const MAX_HEADERS: usize = 4096;

impl RequestSpec {
    /// Header names are distinct, as in a mapping, and few enough for the transport.
    pub open spec fn wf(&self) -> bool {
        &&& keys_distinct(pairs_view(self.headers@))
        &&& self.headers@.len() <= MAX_HEADERS
    }
}

/// The normalised outcome of a successful call.
#[derive(Clone, Debug)]
pub struct ResponseResult {
    pub status: u16,
    /// Response headers whose value is text, in the order received.
    pub headers: Vec<(String, String)>,
    pub body: String,
    /// Wall-clock time of the whole call.
    pub duration_ms: u128,
    /// Byte length of `body` in UTF-8.
    pub size_bytes: usize,
}

/// Why a call failed; each variant carries the description of its cause.
#[derive(Clone, Debug, PartialEq, Eq)]
pub enum ExecError {
    /// The transport client could not be configured.
    ClientBuildError(String),
    /// The verb is not a valid method token.
    InvalidMethod(String),
    /// Connection, DNS, TLS or timeout failure.
    TransportError(String),
    /// The response body could not be read as text.
    BodyReadError(String),
}

/// The message prefix of each kind of failure.
pub open spec fn error_prefix(e: ExecError) -> Seq<char> {
    match e {
        ExecError::ClientBuildError(_) => "Failed to create client: "@,
        ExecError::InvalidMethod(_) => "Invalid HTTP method: "@,
        ExecError::TransportError(_) => "Request failed: "@,
        ExecError::BodyReadError(_) => "Failed to read response body: "@,
    }
}

/// The cause carried by a failure.
pub open spec fn error_cause(e: ExecError) -> String {
    match e {
        ExecError::ClientBuildError(c) => c,
        ExecError::InvalidMethod(c) => c,
        ExecError::TransportError(c) => c,
        ExecError::BodyReadError(c) => c,
    }
}

impl ExecError {
    /// The human-readable message: the kind's prefix followed by the cause.
    pub fn message(&self) -> (r: String)
        ensures
            r@ == error_prefix(*self) + error_cause(*self)@,
    {
        let (mut r, cause) = match self {
            ExecError::ClientBuildError(c) => (String::from_str("Failed to create client: "), c),
            ExecError::InvalidMethod(c) => (String::from_str("Invalid HTTP method: "), c),
            ExecError::TransportError(c) => (String::from_str("Request failed: "), c),
            ExecError::BodyReadError(c) => (String::from_str("Failed to read response body: "), c),
        };
        r.append(cause.as_str());
        r
    }
}

/// A character allowed in an HTTP method token.
pub open spec fn is_token_char(c: char) -> bool {
    ('0' <= c <= '9') || ('A' <= c <= 'Z') || ('a' <= c <= 'z') || c == '!' || c == '#' || c
        == '$' || c == '%' || c == '&' || c == '\'' || c == '*' || c == '+' || c == '-' || c
        == '.' || c == '^' || c == '_' || c == '`' || c == '|' || c == '~'
}

/// A non-empty sequence of token characters.
pub open spec fn is_method_token(s: Seq<char>) -> bool {
    s.len() > 0 && forall|i: int| 0 <= i < s.len() ==> is_token_char(#[trigger] s[i])
}

/// Whether a request builder holds a request rather than an error.
pub uninterp spec fn builder_ok(b: reqwest::RequestBuilder) -> bool;

/// The text of the payload of the request a builder holds; `None` when that
/// request has no payload or the builder holds an error.
pub uninterp spec fn builder_body(b: reqwest::RequestBuilder) -> Option<Seq<char>>;

/// The text of an HTTP method.
pub uninterp spec fn method_text(m: reqwest::Method) -> Seq<char>;

/// The text of the method of the request a builder holds.
pub uninterp spec fn builder_method(b: reqwest::RequestBuilder) -> Seq<char>;

/// The header entries of the request a builder holds, each as the text of its
/// name and of its value; none when the builder holds an error.
pub uninterp spec fn builder_headers(b: reqwest::RequestBuilder) -> Multiset<
    (Seq<char>, Seq<char>),
>;

/// A character with ASCII upper-case letters mapped to lower case.
pub open spec fn ascii_lower_char(c: char) -> char {
    if 'A' <= c <= 'Z' {
        ((c as u32) + 32) as char
    } else {
        c
    }
}

/// The form a header name takes in the transport's header map: ASCII lower case.
pub open spec fn header_name_form(s: Seq<char>) -> Seq<char> {
    s.map_values(|c: char| ascii_lower_char(c))
}

/// The header entries of `h` as the transport's header map holds them.
pub open spec fn attached_headers(h: Seq<(Seq<char>, Seq<char>)>) -> Multiset<
    (Seq<char>, Seq<char>),
>
    decreases h.len(),
{
    if h.len() == 0 {
        Multiset::empty()
    } else {
        attached_headers(h.drop_last()).insert((header_name_form(h.last().0), h.last().1))
    }
}

proof fn lemma_attached_len(h: Seq<(Seq<char>, Seq<char>)>)
    ensures
        attached_headers(h).len() == h.len(),
    decreases h.len(),
{
    if h.len() > 0 {
        lemma_attached_len(h.drop_last());
    }
}

/// The text of the url a request holds when built from the url text `u`:
/// parsed and normalised, with any credentials taken out of it.
pub uninterp spec fn url_form(u: Seq<char>) -> Seq<char>;

/// The text of the url of the request a builder holds.
pub uninterp spec fn builder_url(b: reqwest::RequestBuilder) -> Seq<char>;

/// The request timeout, in seconds, of a client.
pub uninterp spec fn client_timeout(c: reqwest::Client) -> u64;

/// The request timeout, in seconds, of the client a builder sends through.
pub uninterp spec fn builder_timeout(b: reqwest::RequestBuilder) -> u64;

/// The `Display` text of a transport error.
pub uninterp spec fn error_text_of(e: reqwest::Error) -> Seq<char>;

/// The status code of a response.
pub uninterp spec fn status_code_of(resp: reqwest::Response) -> u16;

/// The header entries of a response in iteration order, each value's text
/// where it is visible ASCII.
pub uninterp spec fn header_entries_of(resp: reqwest::Response) -> Seq<
    (Seq<char>, Option<Seq<char>>),
>;

/// The texts of each name and optional value.
pub open spec fn raw_pairs_view(h: Seq<(String, Option<String>)>) -> Seq<
    (Seq<char>, Option<Seq<char>>),
> {
    h.map_values(
        |p: (String, Option<String>)|
            (
                p.0@,
                match p.1 {
                    Some(v) => Some(v@),
                    None => None,
                },
            ),
    )
}

/// Relies on `reqwest::ClientBuilder::timeout` and `build`: a fresh client
/// whose calls time out after `secs` seconds, or the reason it could not be built.
#[verifier::external_body]
fn build_client(secs: u64) -> (r: Result<reqwest::Client, reqwest::Error>)
    ensures
        r is Ok ==> client_timeout(r->Ok_0) == secs,
{
    reqwest::Client::builder().timeout(std::time::Duration::from_secs(secs)).build()
}

/// Relies on `reqwest::Method::from_bytes`: it accepts exactly the non-empty
/// strings of token characters, and the method keeps their text.
#[verifier::external_body]
fn parse_method(s: &str) -> (r: Result<reqwest::Method, String>)
    ensures
        r is Ok <==> is_method_token(s@),
        r is Ok ==> method_text(r->Ok_0) == s@,
{
    reqwest::Method::from_bytes(s.as_bytes()).map_err(|e| e.to_string())
}

/// Relies on `reqwest::Client::request`: a request builder on `client` for
/// `method` and `url`, holding a request without payload (`Request::new`) and
/// with at most one header (basic credentials taken from the url), or an error
/// for a malformed url, reported when the request is sent.
#[verifier::external_body]
fn new_request(client: &reqwest::Client, method: reqwest::Method, url: &str) -> (r:
    reqwest::RequestBuilder)
    ensures
        builder_body(r) is None,
        builder_ok(r) ==> builder_method(r) == method_text(method),
        builder_ok(r) ==> builder_url(r) == url_form(url@),
        builder_headers(r).len() <= 1,
        builder_timeout(r) == client_timeout(*client),
{
    client.request(method, url)
}

/// Relies on `reqwest::RequestBuilder::header`: appends one header entry to
/// the request held, leaving its payload as it was, or turns the builder into
/// an error when the name or value is invalid; an error stays an error.
/// `HeaderMap::append` panics once the map outgrows its capacity of 2^15;
/// the bound keeps every growth step below it.
#[verifier::external_body]
fn with_header(b: reqwest::RequestBuilder, key: &String, value: &String) -> (r:
    reqwest::RequestBuilder)
    requires
        builder_headers(b).len() <= MAX_HEADERS,
    ensures
        builder_ok(r) ==> builder_headers(r) == builder_headers(b).insert(
            (header_name_form(key@), value@),
        ),
        !builder_ok(r) ==> builder_headers(r).len() == 0,
        builder_timeout(r) == builder_timeout(b),
        builder_ok(r) ==> builder_ok(b) && builder_body(r) == builder_body(b) && builder_method(r)
            == builder_method(b) && builder_url(r) == builder_url(b),
        !builder_ok(r) ==> builder_body(r) is None,
{
    b.header(key.clone(), value.clone())
}

/// Relies on `reqwest::RequestBuilder::body`: sets the payload of the request
/// held to `body`; an error stays an error.
#[verifier::external_body]
fn with_body(b: reqwest::RequestBuilder, body: String) -> (r: reqwest::RequestBuilder)
    ensures
        builder_ok(r) == builder_ok(b),
        builder_ok(b) ==> builder_body(r) == Some(body@) && builder_method(r) == builder_method(b)
            && builder_url(r) == builder_url(b),
        builder_headers(r) == builder_headers(b),
        builder_timeout(r) == builder_timeout(b),
        !builder_ok(b) ==> builder_body(r) is None,
{
    b.body(body)
}

/// Relies on the `Display` text of `reqwest::Error`.
#[verifier::external_body]
fn describe(e: &reqwest::Error) -> (r: String)
    ensures
        r@ == error_text_of(*e),
{
    e.to_string()
}

/// Relies on `reqwest::Response::status`: a status code is always in 100..=999.
#[verifier::external_body]
fn status_of(resp: &reqwest::Response) -> (r: u16)
    ensures
        r == status_code_of(*resp),
        100 <= r <= 999,
{
    resp.status().as_u16()
}

/// Relies on `reqwest::Response::headers` and `HeaderValue::to_str`: each
/// header in order, with its value as text where it is visible ASCII.
#[verifier::external_body]
fn raw_headers_of(resp: &reqwest::Response) -> (r: Vec<(String, Option<String>)>)
    ensures
        raw_pairs_view(r@) == header_entries_of(*resp),
{
    resp.headers().iter().map(|(k, v)| (k.as_str().to_string(), v.to_str().ok().map(String::from))).collect()
}

/// Assembles the outgoing request on `client`: the method token, the url,
/// every header entry in order, and the body only when one is present.
/// The request carries at most `MAX_HEADERS` header entries.
/// Fails exactly when the method is not a valid token. Without a body the
/// request carries no payload at all; with one it carries that text as is,
/// an empty text included, unless an invalid url or header made it an error.
pub fn prepare_request(client: &reqwest::Client, spec: &RequestSpec) -> (r: Result<
    reqwest::RequestBuilder,
    ExecError,
>)
    requires
        spec.headers@.len() <= MAX_HEADERS,
    ensures
        r is Err <==> !is_method_token(spec.method@),
        r is Err ==> r->Err_0 is InvalidMethod,
        r is Ok ==> payload_sent(spec.body, r->Ok_0),
        r is Ok && builder_ok(r->Ok_0) ==> builder_method(r->Ok_0) == spec.method@,
        r is Ok && builder_ok(r->Ok_0) ==> builder_url(r->Ok_0) == url_form(spec.url@),
        r is Ok ==> builder_timeout(r->Ok_0) == client_timeout(*client),
        r is Ok && builder_ok(r->Ok_0) ==> headers_sent(spec.headers@, r->Ok_0),
{
    let method = match parse_method(spec.method.as_str()) {
        Ok(m) => m,
        Err(e) => {
            return Err(ExecError::InvalidMethod(e));
        },
    };
    let mut b = new_request(client, method, spec.url.as_str());
    let ghost init = builder_headers(b);
    let mut i: usize = 0;
    while i < spec.headers.len()
        invariant
            i <= spec.headers@.len(),
            builder_body(b) is None,
            builder_ok(b) ==> builder_method(b) == spec.method@,
            builder_ok(b) ==> builder_url(b) == url_form(spec.url@),
            init.len() <= 1,
            builder_headers(b).len() <= 1 + i,
            builder_ok(b) ==> builder_headers(b) == init.add(
                attached_headers(pairs_view(spec.headers@.subrange(0, i as int))),
            ),
            builder_timeout(b) == client_timeout(*client),
            spec.headers@.len() <= MAX_HEADERS,
        decreases spec.headers@.len() - i,
    {
        let ghost before = b;
        b = with_header(b, &spec.headers[i].0, &spec.headers[i].1);
        proof {
            let done = pairs_view(spec.headers@.subrange(0, i as int));
            let next = pairs_view(spec.headers@.subrange(0, i + 1));
            assert(next.drop_last() =~= done);
            lemma_attached_len(done);
            if builder_ok(b) {
                assert(builder_headers(b) =~= init.add(attached_headers(next)));
            }
        }
        i = i + 1;
    }
    proof {
        assert(spec.headers@.subrange(0, spec.headers@.len() as int) =~= spec.headers@);
    }
    match &spec.body {
        Some(body) => {
            b = with_body(b, body.clone());
        },
        None => {},
    }
    Ok(b)
}

/// The header entries a prepared request holds: those of `headers`, in the
/// transport's form, beside at most one taken from the url's credentials.
pub open spec fn headers_sent(headers: Seq<(String, String)>, b: reqwest::RequestBuilder) -> bool {
    exists|extra: Multiset<(Seq<char>, Seq<char>)>|
        extra.len() <= 1 && builder_headers(b) == extra.add(attached_headers(pairs_view(headers)))
}

/// What a prepared request carries as payload for the body `body`: nothing
/// when there is none, else exactly its text once the builder holds a request.
pub open spec fn payload_sent(body: Option<String>, b: reqwest::RequestBuilder) -> bool {
    match body {
        None => builder_body(b) is None,
        Some(t) => builder_ok(b) ==> builder_body(b) == Some(t@),
    }
}

/// Builds a fresh client with the call's timeout and assembles the request on it.
/// An invalid method always fails the call; a valid one fails it only when the
/// client cannot be built.
pub fn start_request(spec: &RequestSpec) -> (r: Result<reqwest::RequestBuilder, ExecError>)
    requires
        spec.headers@.len() <= MAX_HEADERS,
    ensures
        !is_method_token(spec.method@) ==> r is Err,
        r is Err ==> (r->Err_0 is ClientBuildError || r->Err_0 is InvalidMethod),
        is_method_token(spec.method@) && r is Err ==> r->Err_0 is ClientBuildError,
        r is Ok ==> payload_sent(spec.body, r->Ok_0),
        r is Ok && builder_ok(r->Ok_0) ==> builder_method(r->Ok_0) == spec.method@,
        r is Ok && builder_ok(r->Ok_0) ==> builder_url(r->Ok_0) == url_form(spec.url@),
        r is Ok ==> builder_timeout(r->Ok_0) == spec.timeout,
        r is Ok && builder_ok(r->Ok_0) ==> headers_sent(spec.headers@, r->Ok_0),
        r is Err && r->Err_0 is ClientBuildError ==> exists|e: reqwest::Error|
            error_cause(r->Err_0)@ == error_text_of(e),
{
    let client = match build_client(spec.timeout) {
        Ok(c) => c,
        Err(e) => {
            return Err(ExecError::ClientBuildError(describe(&e)));
        },
    };
    prepare_request(&client, spec)
}

/// The outcome of dispatch: a transport failure becomes `TransportError`
/// carrying its description.
pub fn transport_outcome(sent: Result<reqwest::Response, reqwest::Error>) -> (r: Result<
    reqwest::Response,
    ExecError,
>)
    ensures
        match sent {
            Ok(resp) => r == Ok::<reqwest::Response, ExecError>(resp),
            Err(e) => r is Err && r->Err_0 is TransportError && error_cause(r->Err_0)@
                == error_text_of(e),
        },
{
    match sent {
        Ok(resp) => Ok(resp),
        Err(e) => Err(ExecError::TransportError(describe(&e))),
    }
}

/// The status code of a response and its header entries in the order
/// received, each value as text where it has a text form.
pub fn response_head(resp: &reqwest::Response) -> (r: (u16, Vec<(String, Option<String>)>))
    ensures
        r.0 == status_code_of(*resp),
        100 <= r.0 <= 999,
        raw_pairs_view(r.1@) == header_entries_of(*resp),
{
    (status_of(resp), raw_headers_of(resp))
}

/// Normalises a received response: header entries without a text value are
/// dropped, a body that could not be read fails the call with
/// `BodyReadError`, and the size is the body's byte length.
pub fn finish_response(
    status: u16,
    raw_headers: &Vec<(String, Option<String>)>,
    body: Result<String, String>,
    duration_ms: u128,
) -> (r: Result<ResponseResult, ExecError>)
    ensures
        match body {
            Ok(b) => r is Ok && r->Ok_0.status == status && r->Ok_0.headers@ == text_entries(
                raw_headers@,
            ) && r->Ok_0.body == b && r->Ok_0.duration_ms == duration_ms
                && r->Ok_0.size_bytes == encode_utf8(b@).len() as usize,
            Err(e) => r == Err::<ResponseResult, ExecError>(ExecError::BodyReadError(e)),
        },
{
    match body {
        Ok(b) => {
            let size_bytes = b.as_str().len();
            let headers = keep_text_entries(raw_headers);
            Ok(ResponseResult { status, headers, body: b, duration_ms, size_bytes })
        },
        Err(e) => Err(ExecError::BodyReadError(e)),
    }
}

} // verus!
