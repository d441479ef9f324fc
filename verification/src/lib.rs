//! A typed client for the Selectel Managed Kubernetes Service (MKS) REST API.
//!
//! The library builds authenticated HTTP requests for cluster, nodegroup,
//! node, task, and Kubernetes-version resources, renders JSON request bodies,
//! and decodes JSON response bodies into typed records.  Construction,
//! request building, and response interpretation are verified; the network
//! itself is driven by the caller, who executes a built [`Request`] over its
//! own connection pool and hands the outcome back as an [`ExecOutcome`].

use vstd::prelude::*;
use vstd::string::{StrSliceExecFns, StringExecFns};

pub mod cluster;
pub mod error;
pub mod json;
pub mod kubeversion;
pub mod node;
pub mod nodegroup;
pub mod task;
pub mod text;

use error::MKSError;
use text::{dec_str, dec_string, push_char};

verus! {

#[verifier::external_type_specification]
#[verifier::external_body]
pub struct ExHyperError(hyper::Error);

/// What `url::Url::parse` makes of a string: `None` when the string is not
/// an absolute URL, otherwise the parsed URL's normalized serialization.
pub uninterp spec fn normalized_endpoint(s: Seq<char>) -> Option<Seq<char>>;

/// Whether the `http` crate's URI parser accepts a string.
pub uninterp spec fn uri_accepted(s: Seq<char>) -> bool;

/// A character that may appear in an HTTP header value: a tab, or any
/// character other than the C0 controls and delete.
pub open spec fn legal_header_char(c: char) -> bool {
    c == '\t' || (32 <= c as u32 && c as u32 != 127)
}

/// A string that is legal as an HTTP header value.
pub open spec fn legal_header_value(s: Seq<char>) -> bool {
    forall|i: int| 0 <= i < s.len() ==> legal_header_char(s[i])
}

/// Relies on `url::Url::parse`, which accepts exactly the absolute URLs the
/// `url` crate can parse, and on `Url::as_str`, the parsed URL's normalized
/// serialization; both depend on the input alone.
#[verifier::external_body]
fn parse_endpoint(s: &str) -> (r: Option<String>)
    ensures
        r is Some <==> normalized_endpoint(s@) is Some,
        r is Some ==> r.unwrap()@ == normalized_endpoint(s@).unwrap(),
{
    match url::Url::parse(s) {
        Ok(u) => Some(String::from(u.as_str())),
        Err(_) => None,
    }
}

/// Relies on the `http` crate's URI parser, reached through
/// `str::parse::<hyper::Uri>`, which depends on the input alone.
#[verifier::external_body]
fn uri_is_valid(s: &str) -> (r: bool)
    ensures
        r == uri_accepted(s@),
{
    s.parse::<hyper::Uri>().is_ok()
}

/// Relies on `hyper::header::HeaderValue::from_str`, which accepts a string
/// iff every byte is 32..=255 except 127, or is a tab.  Characters below
/// 0x80 occupy one byte equal to their code point, and every byte of a
/// multi-byte character is at least 0x80, so the byte-wise test is exactly
/// [`legal_header_value`] over the characters.
#[verifier::external_body]
fn header_value_is_legal(s: &str) -> (r: bool)
    ensures
        r == legal_header_value(s@),
{
    hyper::header::HeaderValue::from_str(s).is_ok()
}

/// The user-agent string sent with every request.
pub open spec fn user_agent_text() -> Seq<char> {
    "selectel_mks/0.1.0"@
}

fn user_agent_string() -> (r: String)
    ensures
        r@ == user_agent_text(),
{
    String::from_str("selectel_mks/0.1.0")
}

/// Default timeout for requests, in milliseconds.
pub const DEFAULT_TIMEOUT_MS: u64 = 30000;

/// The HTTP method of a request built by this library.
#[derive(Clone, Copy, PartialEq, Eq, Structural, Debug)]
pub enum Method {
    Get,
    Post,
    Put,
    Delete,
}

/// An outgoing request descriptor: everything the caller needs to perform
/// the exchange.  Built fresh per call; never reused.
pub struct Request {
    /// HTTP method.
    pub method: Method,
    /// Absolute URI: the base endpoint joined with the resource path.
    pub uri: String,
    /// Header names and values, in order.
    pub headers: Vec<(String, String)>,
    /// Serialized JSON body, when the operation carries one.
    pub body: Option<String>,
}

/// The mathematical model of a [`Request`].
pub struct RequestModel {
    pub method: Method,
    pub uri: Seq<char>,
    pub headers: Seq<(Seq<char>, Seq<char>)>,
    pub body: Option<Seq<char>>,
}

/// The view of an optional owned string.
pub open spec fn opt_text(o: Option<String>) -> Option<Seq<char>> {
    match o {
        Some(s) => Some(s@),
        None => None,
    }
}

impl View for Request {
    type V = RequestModel;

    open spec fn view(&self) -> RequestModel {
        RequestModel {
            method: self.method,
            uri: self.uri@,
            headers: json::pairs_model(self.headers@),
            body: opt_text(self.body),
        }
    }
}

/// `Client` is used to make calls to the MKS API.  It holds the immutable
/// configuration of every request: the base endpoint, the auth token, the
/// user-agent string, and the timeout budget.
pub struct Client {
    token: String,
    base_endpoint: String,
    user_agent: String,
    timeout_ms: u64,
}

/// The mathematical model of a [`Client`]: its immutable configuration.
pub struct ClientModel {
    pub token: Seq<char>,
    pub base_endpoint: Seq<char>,
    pub user_agent: Seq<char>,
    pub timeout_ms: u64,
}

impl View for Client {
    type V = ClientModel;

    closed spec fn view(&self) -> ClientModel {
        ClientModel {
            token: self.token@,
            base_endpoint: self.base_endpoint@,
            user_agent: self.user_agent@,
            timeout_ms: self.timeout_ms,
        }
    }
}

/// Builder for `Client`.
pub struct Builder {
    timeout_ms: u64,
}

/// The mathematical model of a [`Builder`].
pub struct BuilderModel {
    pub timeout_ms: u64,
}

impl View for Builder {
    type V = BuilderModel;

    closed spec fn view(&self) -> BuilderModel {
        BuilderModel { timeout_ms: self.timeout_ms }
    }
}

/// The model of a freshly made default [`Builder`].
pub open spec fn default_builder_model() -> BuilderModel {
    BuilderModel { timeout_ms: DEFAULT_TIMEOUT_MS }
}

impl Default for Builder {
    fn default() -> (r: Self)
        ensures
            r@ == default_builder_model(),
    {
        Builder { timeout_ms: DEFAULT_TIMEOUT_MS }
    }
}

impl Builder {
    /// Set the request timeout, in milliseconds.
    ///
    /// Default is 30 seconds.
    pub fn timeout(self, timeout_ms: u64) -> (r: Self)
        ensures
            r@ == (BuilderModel { timeout_ms }),
    {
        Builder { timeout_ms }
    }

    /// Create a `Client` with the configuration in this builder.
    pub fn build(self, base_endpoint: &str, token: &str) -> (r: Result<Client, MKSError>)
        ensures
            construction_result(self@, base_endpoint@, token@, r),
    {
        Client::with_builder(base_endpoint, token, self)
    }
}

/// What construction returns: an empty token is refused first, then an
/// endpoint that does not parse as an absolute URL; otherwise the client is
/// configured exactly from the inputs and the builder.
pub open spec fn construction_result(
    b: BuilderModel,
    base: Seq<char>,
    token: Seq<char>,
    r: Result<Client, MKSError>,
) -> bool {
    &&& token.len() == 0 ==> r == Err::<Client, MKSError>(MKSError::EmptyTokenError)
    &&& token.len() > 0 && normalized_endpoint(base) is None ==> r == Err::<Client, MKSError>(
        MKSError::EndpointError,
    )
    &&& token.len() > 0 && normalized_endpoint(base) is Some ==> {
        &&& r is Ok
        &&& r.unwrap()@ == (ClientModel {
            token,
            base_endpoint: normalized_endpoint(base).unwrap(),
            user_agent: user_agent_text(),
            timeout_ms: b.timeout_ms,
        })
    }
}

impl Client {
    /// Construct a new `Client` with the default configuration.
    ///
    /// Use `Builder` to configure the client.
    pub fn new(base_endpoint: &str, token: &str) -> (r: Result<Client, MKSError>)
        ensures
            construction_result(default_builder_model(), base_endpoint@, token@, r),
    {
        Client::with_builder(base_endpoint, token, Client::builder())
    }

    fn with_builder(base_endpoint: &str, token: &str, builder: Builder) -> (r: Result<
        Client,
        MKSError,
    >)
        ensures
            construction_result(builder@, base_endpoint@, token@, r),
    {
        if token.unicode_len() == 0 {
            return Err(MKSError::EmptyTokenError);
        }
        let token = token.to_owned();
        match parse_endpoint(base_endpoint) {
            None => Err(MKSError::EndpointError),
            Some(base_endpoint) => Ok(
                Client {
                    token,
                    base_endpoint,
                    user_agent: user_agent_string(),
                    timeout_ms: builder.timeout_ms,
                },
            ),
        }
    }

    /// Get a default builder.
    pub fn builder() -> (r: Builder)
        ensures
            r@ == default_builder_model(),
    {
        Builder::default()
    }

    /// The stored authentication token.
    pub fn token(&self) -> (r: &str)
        ensures
            r@ == self@.token,
    {
        self.token.as_str()
    }

    /// The normalized base endpoint.
    pub fn base_endpoint(&self) -> (r: &str)
        ensures
            r@ == self@.base_endpoint,
    {
        self.base_endpoint.as_str()
    }

    /// The user-agent string sent with every request.
    pub fn user_agent(&self) -> (r: &str)
        ensures
            r@ == self@.user_agent,
    {
        self.user_agent.as_str()
    }

    /// The request timeout budget, in milliseconds.
    pub fn timeout_ms(&self) -> (r: u64)
        ensures
            r == self@.timeout_ms,
    {
        self.timeout_ms
    }
}

/// The base endpoint joined with a resource path: exactly one slash stands
/// between them, and no segment of either is dropped.
pub open spec fn joined_url(base: Seq<char>, path: Seq<char>) -> Seq<char> {
    let b = if base.len() > 0 && base.last() == '/' {
        base.drop_last()
    } else {
        base
    };
    let p = if path.len() > 0 && path.first() == '/' {
        path
    } else {
        seq!['/'] + path
    };
    b + p
}

fn join_url(base: &str, path: &str) -> (r: String)
    ensures
        r@ == joined_url(base@, path@),
{
    let blen = base.unicode_len();
    let trimmed: &str = if blen > 0 && base.get_char(blen - 1) == '/' {
        base.substring_char(0, blen - 1)
    } else {
        base
    };
    let mut joined = trimmed.to_owned();
    let plen = path.unicode_len();
    if !(plen > 0 && path.get_char(0) == '/') {
        push_char(&mut joined, '/');
    }
    joined.append(path);
    proof {
        assert(joined@ =~= joined_url(base@, path@));
    }
    joined
}

/// The length in bytes of the UTF-8 encoding of a text, as `str::len`
/// reports it.
pub open spec fn utf8_len(s: Seq<char>) -> int {
    (vstd::utf8::encode_utf8(s).len() as usize) as int
}

/// The headers of a request built for a client: always the user-agent and
/// the auth token; with a body also its byte length and the JSON content
/// type.
pub open spec fn request_headers(cm: ClientModel, body: Option<Seq<char>>) -> Seq<
    (Seq<char>, Seq<char>),
> {
    let base = seq![("user-agent"@, cm.user_agent), ("x-auth-token"@, cm.token)];
    match body {
        Some(b) => base + seq![
            ("content-length"@, dec_str(utf8_len(b))),
            ("content-type"@, "application/json"@),
        ],
        None => base,
    }
}

/// The request that [`Client::new_request`] builds on success.
pub open spec fn built_request(
    cm: ClientModel,
    method: Method,
    path: Seq<char>,
    body: Option<Seq<char>>,
) -> RequestModel {
    RequestModel {
        method,
        uri: joined_url(cm.base_endpoint, path),
        headers: request_headers(cm, body),
        body,
    }
}

/// What building a request returns: `UrlError` when the URI parser refuses
/// the joined URL, `RequestError` when the user-agent or the token is not
/// legal header text, and otherwise exactly the descriptor of
/// [`built_request`].
pub open spec fn new_request_result(
    cm: ClientModel,
    method: Method,
    path: Seq<char>,
    body: Option<Seq<char>>,
    r: Result<Request, MKSError>,
) -> bool {
    let joined = joined_url(cm.base_endpoint, path);
    &&& !uri_accepted(joined) ==> r == Err::<Request, MKSError>(MKSError::UrlError)
    &&& uri_accepted(joined) && !(legal_header_value(cm.user_agent) && legal_header_value(cm.token))
        ==> r == Err::<Request, MKSError>(MKSError::RequestError)
    &&& uri_accepted(joined) && legal_header_value(cm.user_agent) && legal_header_value(cm.token)
        ==> {
        &&& r is Ok
        &&& r.unwrap()@ == built_request(cm, method, path, body)
    }
}

impl Client {
    /// Compose the absolute URI for a resource path.
    pub fn make_uri(&self, path: &str) -> (r: Result<String, MKSError>)
        ensures
            uri_accepted(joined_url(self@.base_endpoint, path@)) ==> r is Ok && r.unwrap()@
                == joined_url(self@.base_endpoint, path@),
            !uri_accepted(joined_url(self@.base_endpoint, path@)) ==> r == Err::<String, MKSError>(
                MKSError::UrlError,
            ),
    {
        let joined = join_url(self.base_endpoint.as_str(), path);
        if uri_is_valid(joined.as_str()) {
            Ok(joined)
        } else {
            Err(MKSError::UrlError)
        }
    }

    /// Prepare a new request descriptor.  No I/O occurs.
    pub fn new_request(&self, method: Method, path: &str, body: Option<String>) -> (r: Result<
        Request,
        MKSError,
    >)
        ensures
            new_request_result(self@, method, path@, opt_text(body), r),
    {
        let uri = match self.make_uri(path) {
            Ok(uri) => uri,
            Err(e) => {
                return Err(e);
            },
        };
        if !header_value_is_legal(self.user_agent.as_str()) || !header_value_is_legal(
            self.token.as_str(),
        ) {
            return Err(MKSError::RequestError);
        }
        let mut headers: Vec<(String, String)> = Vec::new();
        headers.push((String::from_str("user-agent"), self.user_agent.clone()));
        headers.push((String::from_str("x-auth-token"), self.token.clone()));
        match body {
            None => {
                let r = Request { method, uri, headers, body: None };
                proof {
                    assert(r@.headers =~~= request_headers(self@, opt_text(body)));
                }
                Ok(r)
            },
            Some(b) => {
                let byte_len = b.as_str().len();
                headers.push((String::from_str("content-length"), dec_string(byte_len as u64)));
                headers.push(
                    (String::from_str("content-type"), String::from_str("application/json")),
                );
                let r = Request { method, uri, headers, body: Some(b) };
                proof {
                    assert(r@.headers =~~= request_headers(self@, opt_text(body)));
                }
                Ok(r)
            },
        }
    }
}

/// How a dispatched exchange ended: the response arrived, the transport
/// failed, or the timeout budget elapsed first.
pub enum ExecOutcome {
    /// A response arrived in time: its status code and its body text,
    /// lossily decoded as UTF-8.
    Completed(u16, String),
    /// The transport failed underneath; carries the underlying cause.
    TransportFault(hyper::Error),
    /// The timeout elapsed before the response was complete.
    TimedOut,
}

/// The result owed for each exchange outcome: the body verbatim for a
/// success status, `HttpError` with the status and the body verbatim
/// otherwise, `HyperError` for a transport fault, and `TimeoutError` when
/// the deadline passed.
pub open spec fn outcome_result(outcome: ExecOutcome) -> Result<String, MKSError> {
    match outcome {
        ExecOutcome::Completed(status, body) => if 200 <= status < 300 {
            Ok(body)
        } else {
            Err(MKSError::HttpError(status, body))
        },
        ExecOutcome::TransportFault(cause) => Err(MKSError::HyperError(cause)),
        ExecOutcome::TimedOut => Err(MKSError::TimeoutError),
    }
}

/// Turn the outcome of a dispatched exchange into the operation's result.
///
/// This is total and pure: the same outcome always maps to the same result,
/// so repeating a timed-out call is safe and independent of the first.
pub fn interpret_outcome(outcome: ExecOutcome) -> (r: Result<String, MKSError>)
    ensures
        r == outcome_result(outcome),
{
    match outcome {
        ExecOutcome::Completed(status, body) => {
            if 200 <= status && status < 300 {
                Ok(body)
            } else {
                Err(MKSError::HttpError(status, body))
            }
        },
        ExecOutcome::TransportFault(cause) => Err(MKSError::HyperError(cause)),
        ExecOutcome::TimedOut => Err(MKSError::TimeoutError),
    }
}

/// A timed-out exchange never yields a success value: its result is
/// `TimeoutError`, whatever the request was, so repeating the same call is
/// safe and independent of any earlier attempt.
pub proof fn lemma_timed_out_never_succeeds(outcome: ExecOutcome)
    requires
        outcome is TimedOut,
    ensures
        outcome_result(outcome) == Err::<String, MKSError>(MKSError::TimeoutError),
{
}

} // verus!
