//! The gateway: it takes a time request, forwards it to the provider under a
//! freshly minted identifier, and relays the answer or reports why it could
//! not.
//!
//! The gateway does not talk to the network here. One request is a short
//! exchange in two stages: [`begin`] says what to send, [`Forwarding::on_reply`]
//! takes what came back and either fails or asks for the body, and
//! [`Reading::on_body`] takes the body and settles the request. Whoever owns
//! the socket performs the sending and reading in between.

use vstd::prelude::*;
use crate::clock::{now, rfc3339_text, to_rfc3339, Instant};
use crate::health::{health_at, health_report};
use crate::ident::{is_minted, mint};
use crate::message::{ErrorResponse, ErrorResponseView, Health, TimeResponse, TimeResponseView};
use crate::status::{mentions_code, status_text, HttpStatus};
use crate::zone::{name_or_default, requested_name, Zone};

verus! {

/// The query of the gateway's time endpoint. Callers cannot pass an
/// identifier: the gateway always mints its own.
#[derive(Clone, Debug, PartialEq, Eq)]
pub struct TimeQuery {
    pub timezone: Option<String>,
}

/// The port the gateway listens on.
pub const PORT: u16 = 3000;

/// The gateway's descriptor.
pub fn root() -> (text: &'static str)
    ensures
        text@ == "API1 - Time Service Gateway"@,
{
    "API1 - Time Service Gateway"
}

/// The gateway's liveness report, stamped with the clock's reading.
pub fn health_check() -> (report: Health)
    ensures
        report.status@ == "healthy"@,
        report.service@ == "api1"@,
        exists|at: Instant| at.is_valid() && report@ == health_report("api1"@, at),
{
    let at = now();
    health_at("api1", at)
}

/// Where the provider is found: the configured base URL, or the fixed local
/// address when none is configured.
pub open spec fn provider_base(configured: Option<Seq<char>>) -> Seq<char> {
    match configured {
        Some(url) => url,
        None => "http://api2:4000"@,
    }
}

/// Picks the provider's base URL.
pub fn provider_base_url(configured: Option<String>) -> (url: String)
    ensures
        url@ == provider_base(configured.deep_view()),
{
    match configured {
        Some(url) => url,
        None => String::from_str("http://api2:4000"),
    }
}

/// Why the gateway could not relay an answer. Each is final for its request:
/// nothing is retried and no substitute value is served.
#[derive(Clone, Copy, Debug, PartialEq, Eq, Structural)]
pub enum GatewayError {
    /// The call to the provider could not be established.
    Unavailable,
    /// The provider answered with the given failing status.
    UpstreamError(HttpStatus),
    /// The provider answered with success but its body was not a time reply.
    MalformedUpstreamResponse,
}

impl GatewayError {
    /// An upstream status, where one is carried, is a proper status code.
    pub open spec fn is_valid(&self) -> bool {
        match self {
            GatewayError::UpstreamError(status) => status.is_valid(),
            _ => true,
        }
    }

    /// The status the gateway answers with: 503, 502 or 500.
    pub open spec fn http_status(self) -> HttpStatus {
        match self {
            GatewayError::Unavailable => HttpStatus { code: 503 },
            GatewayError::UpstreamError(_) => HttpStatus { code: 502 },
            GatewayError::MalformedUpstreamResponse => HttpStatus { code: 500 },
        }
    }

    /// The description the gateway answers with. For a failing upstream
    /// status it ends in that status, written out in words.
    pub open spec fn wording(self) -> Seq<char> {
        match self {
            GatewayError::Unavailable => "Failed to connect to API2"@,
            GatewayError::UpstreamError(status) => "API2 returned status: "@ + status_text(
                status.code as int,
            ),
            GatewayError::MalformedUpstreamResponse => "Failed to parse response from API2"@,
        }
    }

    /// The status to answer with.
    pub fn status(&self) -> (status: HttpStatus)
        ensures
            status == self.http_status(),
    {
        match self {
            GatewayError::Unavailable => HttpStatus::service_unavailable(),
            GatewayError::UpstreamError(_) => HttpStatus::bad_gateway(),
            GatewayError::MalformedUpstreamResponse => HttpStatus::internal_server_error(),
        }
    }

    /// The description to answer with. For a failing upstream status it
    /// holds the digits of that status.
    pub fn message(&self) -> (text: String)
        requires
            self.is_valid(),
        ensures
            text@ == self.wording(),
            self matches GatewayError::UpstreamError(status) ==> mentions_code(
                text@,
                status.code as int,
            ),
    {
        match self {
            GatewayError::Unavailable => String::from_str("Failed to connect to API2"),
            GatewayError::UpstreamError(status) => {
                let said = status.describe();
                let text = String::from_str("API2 returned status: ").concat(said.as_str());
                proof {
                    let lead = "API2 returned status: "@.len() as int;
                    assert(text@.subrange(lead, lead + 3) =~= said@.subrange(0, 3));
                }
                text
            },
            GatewayError::MalformedUpstreamResponse => String::from_str(
                "Failed to parse response from API2",
            ),
        }
    }
}

/// A failed answer of the gateway: the status line's code and the body.
#[derive(Clone, Debug, PartialEq, Eq)]
pub struct Failure {
    pub status: HttpStatus,
    pub body: ErrorResponse,
}

/// The content of a [`Failure`].
pub struct FailureView {
    pub status: HttpStatus,
    pub body: ErrorResponseView,
}

impl View for Failure {
    type V = FailureView;

    open spec fn view(&self) -> FailureView {
        FailureView { status: self.status, body: self.body@ }
    }
}

/// The failed answer for a request: the error's status and description, the
/// identifier the request was given when it arrived, and the time at which
/// the failure was noticed, in UTC.
pub open spec fn failure_of(kind: GatewayError, request_id: Seq<char>, at: Instant) -> FailureView {
    FailureView {
        status: kind.http_status(),
        body: ErrorResponseView {
            error: kind.wording(),
            request_id,
            timestamp: rfc3339_text(at.secs as int, at.nanos as int, Zone::Utc),
        },
    }
}

/// Builds the failed answer for a request that failed at the moment `at`.
pub fn fail(kind: GatewayError, request_id: String, at: Instant) -> (failure: Failure)
    requires
        kind.is_valid(),
        at.is_valid(),
    ensures
        failure@ == failure_of(kind, request_id@, at),
        kind matches GatewayError::UpstreamError(status) ==> mentions_code(
            failure.body.error@,
            status.code as int,
        ),
{
    Failure {
        status: kind.status(),
        body: ErrorResponse {
            error: kind.message(),
            request_id,
            timestamp: to_rfc3339(at, Zone::Utc),
        },
    }
}

/// The answer the gateway relays: the provider's time and zone, under the
/// gateway's own identifier and marked as having passed through both hops.
/// Whatever identifier and source the provider wrote are dropped.
pub open spec fn relayed(request_id: Seq<char>, upstream: TimeResponseView) -> TimeResponseView {
    TimeResponseView {
        timestamp: upstream.timestamp,
        timezone: upstream.timezone,
        request_id,
        source: "api1->api2"@,
    }
}

/// Re-wraps the provider's answer under the gateway's identifier.
pub fn relay(request_id: String, upstream: TimeResponse) -> (answer: TimeResponse)
    ensures
        answer@ == relayed(request_id@, upstream@),
{
    TimeResponse {
        timestamp: upstream.timestamp,
        timezone: upstream.timezone,
        request_id,
        source: String::from_str("api1->api2"),
    }
}

/// What came back from sending the call to the provider.
#[derive(Clone, Copy, Debug, PartialEq, Eq, Structural)]
pub enum Reply {
    /// Nothing: the provider could not be reached.
    Unreachable,
    /// A response with this status; its body has not been read yet.
    Status(HttpStatus),
}

impl Reply {
    /// A status, where one came back, is a proper status code.
    pub open spec fn is_valid(&self) -> bool {
        match self {
            Reply::Status(status) => status.is_valid(),
            Reply::Unreachable => true,
        }
    }

    /// The error a reply amounts to, if any: no reply means the provider is
    /// unavailable, a status outside 200..=299 is an upstream error, and a
    /// status inside it is no error yet.
    pub open spec fn fault(self) -> Option<GatewayError> {
        match self {
            Reply::Unreachable => Some(GatewayError::Unavailable),
            Reply::Status(status) => if status.succeeded() {
                None
            } else {
                Some(GatewayError::UpstreamError(status))
            },
        }
    }

    /// Classifies a reply.
    pub fn classify(&self) -> (fault: Option<GatewayError>)
        ensures
            fault == self.fault(),
    {
        match self {
            Reply::Unreachable => Some(GatewayError::Unavailable),
            Reply::Status(status) => if status.is_success() {
                None
            } else {
                Some(GatewayError::UpstreamError(*status))
            },
        }
    }
}

/// The body of a successful response of the provider, after the attempt to
/// read it as a time reply.
#[derive(Clone, Debug, PartialEq, Eq)]
pub enum Body {
    /// It did not have the expected shape.
    Malformed,
    /// It held this reply.
    Parsed(TimeResponse),
}

/// A request whose call to the provider is due or under way: the identifier
/// minted for it, the zone name to ask for, and the address to ask at.
#[derive(Clone, Debug, PartialEq, Eq)]
pub struct Forwarding {
    pub request_id: String,
    pub timezone: String,
    pub url: String,
}

/// The content of a [`Forwarding`].
pub struct ForwardingView {
    pub request_id: Seq<char>,
    pub timezone: Seq<char>,
    pub url: Seq<char>,
}

impl View for Forwarding {
    type V = ForwardingView;

    open spec fn view(&self) -> ForwardingView {
        ForwardingView { request_id: self.request_id@, timezone: self.timezone@, url: self.url@ }
    }
}

/// The call the gateway makes for a request: the provider's time endpoint
/// under the chosen base URL, asked for the requested zone (`UTC` when the
/// request names none) under the request's identifier.
pub open spec fn forwarding_of(
    timezone: Option<Seq<char>>,
    provider_url: Option<Seq<char>>,
    request_id: Seq<char>,
) -> ForwardingView {
    ForwardingView {
        request_id,
        timezone: requested_name(timezone),
        url: provider_base(provider_url) + "/time"@,
    }
}

/// The query parameters of the call, in the order they are handed out.
pub open spec fn query_of(call: ForwardingView) -> Seq<(Seq<char>, Seq<char>)> {
    seq![("timezone"@, call.timezone), ("request_id"@, call.request_id)]
}

/// A request whose call came back with a success status and whose body is
/// due to be read.
#[derive(Clone, Debug, PartialEq, Eq)]
pub struct Reading {
    pub request_id: String,
}

/// How a request stands after the reply `reply`, noticed at the moment `at`:
/// on a fault it has failed with that fault, otherwise its body is to be
/// read. Either way it keeps its identifier.
pub open spec fn settles_reply(
    request_id: Seq<char>,
    reply: Reply,
    at: Instant,
    next: Result<Reading, Failure>,
) -> bool {
    match reply.fault() {
        Some(kind) => next matches Err(failure) && failure@ == failure_of(kind, request_id, at),
        None => next matches Ok(reading) && reading.request_id@ == request_id,
    }
}

/// That the failure after a failing status says which status it was: its
/// description holds the digits of the provider's status code.
pub open spec fn names_failing_status(reply: Reply, next: Result<Reading, Failure>) -> bool {
    match reply {
        Reply::Status(status) => !status.succeeded() ==> (next matches Err(failure)
            && mentions_code(failure.body.error@, status.code as int)),
        Reply::Unreachable => true,
    }
}

/// How a request ends once its body `body` was looked at, at the moment `at`:
/// a parsed reply is relayed, a malformed one fails the request.
pub open spec fn settles_body(
    request_id: Seq<char>,
    body: Body,
    at: Instant,
    done: Result<TimeResponse, Failure>,
) -> bool {
    match body {
        Body::Parsed(upstream) => done matches Ok(answer) && answer@ == relayed(
            request_id,
            upstream@,
        ),
        Body::Malformed => done matches Err(failure) && failure@ == failure_of(
            GatewayError::MalformedUpstreamResponse,
            request_id,
            at,
        ),
    }
}

/// Opens the exchange for a request that was given the identifier
/// `request_id`.
pub fn begin_with(query: TimeQuery, provider_url: Option<String>, request_id: String) -> (call:
    Forwarding)
    ensures
        call@ == forwarding_of(query.timezone.deep_view(), provider_url.deep_view(), request_id@),
{
    let base = provider_base_url(provider_url);
    Forwarding {
        request_id,
        timezone: name_or_default(query.timezone),
        url: base.concat("/time"),
    }
}

/// Opens the exchange for a request: mints its identifier and says what to
/// send to the provider.
pub fn begin(query: TimeQuery, provider_url: Option<String>) -> (call: Forwarding)
    ensures
        is_minted(call.request_id@),
        call@ == forwarding_of(
            query.timezone.deep_view(),
            provider_url.deep_view(),
            call.request_id@,
        ),
{
    let request_id = mint();
    begin_with(query, provider_url, request_id)
}

impl Forwarding {
    /// The query parameters to send: the zone name and the identifier.
    pub fn query(&self) -> (pairs: Vec<(String, String)>)
        ensures
            pairs.deep_view() == query_of(self@),
    {
        let mut pairs: Vec<(String, String)> = Vec::new();
        pairs.push((String::from_str("timezone"), self.timezone.clone()));
        pairs.push((String::from_str("request_id"), self.request_id.clone()));
        assert(pairs.deep_view() =~= query_of(self@));
        pairs
    }

    /// Takes what came back from the provider, noticed at the moment `at`.
    pub fn on_reply_at(self, reply: Reply, at: Instant) -> (next: Result<Reading, Failure>)
        requires
            reply.is_valid(),
            at.is_valid(),
        ensures
            settles_reply(self.request_id@, reply, at, next),
            names_failing_status(reply, next),
    {
        match reply.classify() {
            Some(kind) => Err(fail(kind, self.request_id, at)),
            None => Ok(Reading { request_id: self.request_id }),
        }
    }

    /// Takes what came back from the provider. A failure is stamped with the
    /// clock's reading.
    pub fn on_reply(self, reply: Reply) -> (next: Result<Reading, Failure>)
        requires
            reply.is_valid(),
        ensures
            exists|at: Instant| at.is_valid() && settles_reply(self.request_id@, reply, at, next),
            names_failing_status(reply, next),
    {
        let at = now();
        self.on_reply_at(reply, at)
    }
}

impl Reading {
    /// Takes the body of the provider's response, looked at at the moment
    /// `at`.
    pub fn on_body_at(self, body: Body, at: Instant) -> (done: Result<TimeResponse, Failure>)
        requires
            at.is_valid(),
        ensures
            settles_body(self.request_id@, body, at, done),
    {
        match body {
            Body::Parsed(upstream) => Ok(relay(self.request_id, upstream)),
            Body::Malformed => Err(
                fail(GatewayError::MalformedUpstreamResponse, self.request_id, at),
            ),
        }
    }

    /// Takes the body of the provider's response. A failure is stamped with
    /// the clock's reading.
    pub fn on_body(self, body: Body) -> (done: Result<TimeResponse, Failure>)
        ensures
            exists|at: Instant| at.is_valid() && settles_body(self.request_id@, body, at, done),
    {
        let at = now();
        self.on_body_at(body, at)
    }
}

} // verus!
