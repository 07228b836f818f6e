//! What the metrics endpoint answers.
//!
//! The server knows one resource: `GET /metrics` returns the counters in the
//! OpenMetrics text format. Everything else is not found. The transport is
//! the caller's; this module decides the answer.

use prometheus_client::registry::Registry;
use vstd::prelude::*;

use crate::metrics::encode_registry;
use crate::text::str_eq;

verus! {

/// The content type of the metrics text.
pub open spec fn metrics_content_type() -> Seq<char> {
    "application/openmetrics-text; version=1.0.0; charset=utf-8"@
}

/// Where a request goes.
#[derive(Debug, Clone, Copy, PartialEq, Eq, Structural)]
pub enum Route {
    /// The metrics endpoint.
    Metrics,
    /// Nothing is there.
    NotFound,
}

/// How encoding the counters ended.
#[derive(Debug)]
pub enum MetricsEncodeResult {
    /// The encoded text.
    Encoded(String),
    /// The registry could not be borrowed from its lock.
    FailedAcquiringRegistryLock,
    /// The encoder reported an error.
    FailedEncodingMetrics,
}

/// An answer, ready to be sent.
#[derive(Debug)]
pub struct HttpReply {
    pub status: u16,
    pub content_type: Option<String>,
    pub body: String,
}

/// An answer as plain text.
pub struct ReplyView {
    pub status: u16,
    pub content_type: Option<Seq<char>>,
    pub body: Seq<char>,
}

impl View for HttpReply {
    type V = ReplyView;

    open spec fn view(&self) -> ReplyView {
        ReplyView {
            status: self.status,
            content_type: match self.content_type {
                Some(t) => Some(t@),
                None => None,
            },
            body: self.body@,
        }
    }
}

/// An answer without a body.
pub open spec fn empty_reply(status: u16) -> ReplyView {
    ReplyView { status, content_type: None, body: Seq::empty() }
}

/// The answer to a request for the metrics, given how encoding ended: the
/// text with status 200 and its content type, or status 500 without a body.
pub open spec fn reply_spec(encoded: MetricsEncodeResult) -> ReplyView {
    match encoded {
        MetricsEncodeResult::Encoded(text) => ReplyView {
            status: 200,
            content_type: Some(metrics_content_type()),
            body: text@,
        },
        MetricsEncodeResult::FailedAcquiringRegistryLock => empty_reply(500),
        MetricsEncodeResult::FailedEncodingMetrics => empty_reply(500),
    }
}

/// Only `GET /metrics` reaches the metrics; method and path are compared
/// letter for letter.
pub open spec fn route_spec(method: Seq<char>, path: Seq<char>) -> Route {
    if method == "GET"@ && path == "/metrics"@ {
        Route::Metrics
    } else {
        Route::NotFound
    }
}

/// Decides where a request goes.
pub fn handle_request(method: &str, path: &str) -> (r: Route)
    ensures
        r == route_spec(method@, path@),
{
    if str_eq(method, "GET") && str_eq(path, "/metrics") {
        Route::Metrics
    } else {
        Route::NotFound
    }
}

/// The answer where nothing is found: status 404 without a body.
pub fn not_found() -> (r: HttpReply)
    ensures
        r@ == empty_reply(404),
{
    HttpReply { status: 404, content_type: None, body: String::new() }
}

/// Encodes the counters of the registry, where the registry could be had.
/// What the text is depends on the counters at this moment; a registry
/// that could not be had is always reported as such.
pub fn try_encode(registry: Option<&Registry>) -> (r: MetricsEncodeResult)
    ensures
        registry is None <==> r is FailedAcquiringRegistryLock,
{
    match registry {
        Some(registry) => match encode_registry(registry) {
            Some(text) => MetricsEncodeResult::Encoded(text),
            None => MetricsEncodeResult::FailedEncodingMetrics,
        },
        None => MetricsEncodeResult::FailedAcquiringRegistryLock,
    }
}

/// Turns the outcome of encoding into the answer.
pub fn metrics_reply(encoded: MetricsEncodeResult) -> (r: HttpReply)
    ensures
        r@ == reply_spec(encoded),
{
    match encoded {
        MetricsEncodeResult::Encoded(text) => HttpReply {
            status: 200,
            content_type: Some(
                "application/openmetrics-text; version=1.0.0; charset=utf-8".to_owned(),
            ),
            body: text,
        },
        MetricsEncodeResult::FailedAcquiringRegistryLock => HttpReply {
            status: 500,
            content_type: None,
            body: String::new(),
        },
        MetricsEncodeResult::FailedEncodingMetrics => HttpReply {
            status: 500,
            content_type: None,
            body: String::new(),
        },
    }
}

/// Answers a request for the metrics. Without the registry the answer is
/// status 500 without a body; with it, the answer is what `metrics_reply`
/// makes of the outcome of encoding, so either the text with status 200 or
/// again status 500 without a body.
pub fn handle(registry: Option<&Registry>) -> (r: HttpReply)
    ensures
        registry is None ==> r@ == empty_reply(500),
        r@ == empty_reply(500) || (r@.status == 200 && r@.content_type == Some(
            metrics_content_type(),
        )),
{
    metrics_reply(try_encode(registry))
}

} // verus!
