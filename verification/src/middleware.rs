//! The life of one request, from the moment it is received to the moment its handler has
//! answered, failed or been abandoned: `RECEIVED -> IN_FLIGHT -> COMPLETED | FAILED`.
//!
//! The middleware does its part before and after the handler runs. `begin` takes a request
//! from received to in flight and hands out its context; `finish` consumes the context when
//! the handler has returned, `abandon` when it never will. A context cannot be copied, so
//! each request leaves once at most.

use std::rc::Rc;
use std::time::{Duration, Instant};
use vstd::prelude::*;
use vstd::string::*;
use crate::endpoint::{normalize_endpoint, normalized};
use crate::identifier::{is_random_uuid, random_uuid_text};
use crate::metrics::{
    after_release, after_result, after_start, track_request_release, track_request_result,
    track_request_start, Metrics, MetricsState,
};

verus! {

/// A point in time on the monotonic clock, carried through as it is.
#[verifier::external_type_specification]
#[verifier::external_body]
pub struct ExInstant(Instant);

/// `Instant::now` reads the monotonic clock: nothing is known of what it returns.
pub assume_specification[ Instant::now ]() -> Instant;

/// `Instant::elapsed` reads the clock again: nothing is known of what it returns.
pub assume_specification[ Instant::elapsed ](start: &Instant) -> Duration;

/// `Duration::as_nanos` gives the duration in whole nanoseconds. A duration is opaque here,
/// so nothing is stated of the number.
pub assume_specification[ Duration::as_nanos ](duration: &Duration) -> u128;

/// The status that stands for a handler that failed without a response.
pub const FAILURE_STATUS: u16 = 500;

/// What is known of a request while it is in flight. A context is made when a request is
/// opened and is used up when the request leaves; its route label is always that of its path.
#[derive(Debug)]
pub struct RequestContext {
    correlation_id: String,
    method: String,
    raw_path: String,
    normalized_endpoint: String,
    start_time: Instant,
}

/// What a request was received with.
pub struct RequestInfo {
    /// The identity under which the logs and traces of the request are found again.
    pub correlation_id: Seq<char>,
    pub method: Seq<char>,
    pub raw_path: Seq<char>,
    /// The route label under which the request is counted.
    pub normalized_endpoint: Seq<char>,
    /// When the request was received, on the monotonic clock.
    pub start_time: Instant,
}

impl View for RequestContext {
    type V = RequestInfo;

    closed spec fn view(&self) -> RequestInfo {
        RequestInfo {
            correlation_id: self.correlation_id@,
            method: self.method@,
            raw_path: self.raw_path@,
            normalized_endpoint: self.normalized_endpoint@,
            start_time: self.start_time,
        }
    }
}

impl RequestContext {
    #[verifier::type_invariant]
    spec fn has_label_of_path(self) -> bool {
        self.normalized_endpoint@ == normalized(self.raw_path@)
    }

    /// The identity under which the logs and traces of the request are found again.
    pub fn correlation_id(&self) -> (id: &str)
        ensures
            id@ == self@.correlation_id,
    {
        self.correlation_id.as_str()
    }

    /// The method of the request.
    pub fn method(&self) -> (method: &str)
        ensures
            method@ == self@.method,
    {
        self.method.as_str()
    }

    /// The path of the request as it was received.
    pub fn raw_path(&self) -> (path: &str)
        ensures
            path@ == self@.raw_path,
    {
        self.raw_path.as_str()
    }

    /// The route label of the request's path.
    pub fn normalized_endpoint(&self) -> (label: &str)
        ensures
            label@ == normalized(self@.raw_path),
    {
        proof {
            use_type_invariant(self);
        }
        self.normalized_endpoint.as_str()
    }

    /// When the request was received, on the monotonic clock.
    pub fn start_time(&self) -> (start: &Instant)
        ensures
            *start == self@.start_time,
    {
        &self.start_time
    }
}

/// How the handler ended.
#[derive(Clone, Copy, Debug)]
pub enum Outcome {
    /// It returned a response with this status code.
    Responded(u16),
    /// It returned an error in place of a response.
    Failed,
}

/// How loud an event is.
#[derive(Clone, Copy, Debug, PartialEq, Eq, Structural)]
pub enum Severity {
    Info,
    Warn,
}

/// The events of a request's life, each with the fields of its kind.
#[derive(Debug)]
pub enum RequestEvent {
    /// The request was received and is now in flight.
    Started { correlation_id: String, method: String, path: String },
    /// The handler returned a response.
    Completed { correlation_id: String, status: u16, duration_ms: u64 },
    /// The handler returned an error; `status` is the status that stands for it.
    Failed { correlation_id: String, status: u16, duration_ms: u64 },
}

impl Outcome {
    /// The status under which the outcome is counted: the response's own, or the failure
    /// status where there is no response.
    pub open spec fn status(self) -> u16 {
        match self {
            Outcome::Responded(status) => status,
            Outcome::Failed => FAILURE_STATUS,
        }
    }

    /// The status under which the outcome is counted.
    pub fn status_code(&self) -> (status: u16)
        ensures
            status == self.status(),
    {
        match self {
            Outcome::Responded(status) => *status,
            Outcome::Failed => FAILURE_STATUS,
        }
    }
}

impl RequestEvent {
    /// Failures are reported louder than the rest.
    pub open spec fn spec_severity(self) -> Severity {
        match self {
            RequestEvent::Failed { .. } => Severity::Warn,
            _ => Severity::Info,
        }
    }

    /// How loud the event is.
    pub fn severity(&self) -> (severity: Severity)
        ensures
            severity == self.spec_severity(),
    {
        match self {
            RequestEvent::Failed { .. } => Severity::Warn,
            _ => Severity::Info,
        }
    }
}

/// The event that reports the start of a request.
pub open spec fn reports_start(event: RequestEvent, request: RequestInfo) -> bool {
    &&& event matches RequestEvent::Started { correlation_id, method, path }
    &&& correlation_id@ == request.correlation_id
    &&& method@ == request.method
    &&& path@ == request.raw_path
}

/// The event that reports how a request ended after `elapsed_nanos` nanoseconds: completed
/// with the response's status, or failed with the failure status, and in both cases with the
/// duration in whole milliseconds.
pub open spec fn reports_end(
    event: RequestEvent,
    request: RequestInfo,
    outcome: Outcome,
    elapsed_nanos: u64,
) -> bool {
    match outcome {
        Outcome::Responded(code) => {
            &&& event matches RequestEvent::Completed { correlation_id, status, duration_ms }
            &&& correlation_id@ == request.correlation_id
            &&& status == code
            &&& duration_ms == elapsed_nanos / 1_000_000
        },
        Outcome::Failed => {
            &&& event matches RequestEvent::Failed { correlation_id, status, duration_ms }
            &&& correlation_id@ == request.correlation_id
            &&& status == FAILURE_STATUS
            &&& duration_ms == elapsed_nanos / 1_000_000
        },
    }
}

/// What closing a request after `elapsed_nanos` nanoseconds does: the event reports the end,
/// and the metrics record the result under the request's method, its route label and the
/// status of the outcome.
pub open spec fn closes(
    before: MetricsState,
    after: MetricsState,
    event: RequestEvent,
    request: RequestInfo,
    outcome: Outcome,
    elapsed_nanos: u64,
) -> bool {
    &&& reports_end(event, request, outcome, elapsed_nanos)
    &&& after == after_result(
        before,
        request.method,
        normalized(request.raw_path),
        outcome.status(),
        elapsed_nanos,
    )
}

/// Takes a request from received to in flight under a given identity and start time: its path
/// is normalized, and one more request is in flight for its method and route label.
pub fn open_request(
    metrics: &mut Metrics,
    correlation_id: String,
    method: &str,
    path: &str,
    start_time: Instant,
) -> (opened: (RequestContext, RequestEvent))
    ensures
        opened.0@ == (RequestInfo {
            correlation_id: correlation_id@,
            method: method@,
            raw_path: path@,
            normalized_endpoint: normalized(path@),
            start_time,
        }),
        reports_start(opened.1, opened.0@),
        final(metrics)@ == after_start(old(metrics)@, method@, normalized(path@)),
{
    let endpoint = normalize_endpoint(path);
    track_request_start(metrics, method, endpoint.as_str());
    let event = RequestEvent::Started {
        correlation_id: correlation_id.clone(),
        method: method.to_owned(),
        path: path.to_owned(),
    };
    let context = RequestContext {
        correlation_id,
        method: method.to_owned(),
        raw_path: path.to_owned(),
        normalized_endpoint: endpoint,
        start_time,
    };
    (context, event)
}

/// Takes a request from in flight to completed or failed after `elapsed_nanos` nanoseconds:
/// the request is counted and its duration observed under its method, its route label and
/// the status of the outcome, and one request fewer is in flight.
pub fn close_request(
    metrics: &mut Metrics,
    context: RequestContext,
    outcome: Outcome,
    elapsed_nanos: u64,
) -> (event: RequestEvent)
    ensures
        closes(old(metrics)@, final(metrics)@, event, context@, outcome, elapsed_nanos),
{
    proof {
        use_type_invariant(&context);
    }
    let status = outcome.status_code();
    track_request_result(
        metrics,
        context.method.as_str(),
        context.normalized_endpoint.as_str(),
        status,
        elapsed_nanos,
    );
    let duration_ms = elapsed_nanos / 1_000_000;
    match outcome {
        Outcome::Responded(_) => RequestEvent::Completed {
            correlation_id: context.correlation_id,
            status,
            duration_ms,
        },
        Outcome::Failed => RequestEvent::Failed {
            correlation_id: context.correlation_id,
            status,
            duration_ms,
        },
    }
}

/// The nanoseconds of a duration as a `u64`, which holds more than five centuries; a longer
/// duration counts as the largest.
pub fn nanos_within_u64(nanos: u128) -> (bounded: u64)
    ensures
        bounded == (if nanos <= u64::MAX {
            nanos
        } else {
            u64::MAX as u128
        }),
{
    if nanos <= u64::MAX as u128 {
        nanos as u64
    } else {
        u64::MAX
    }
}

/// The middleware that gives every request an identity and accounts for it in the metrics.
pub struct RequestIdMiddleware;

/// The middleware around one service.
pub struct RequestIdMiddlewareService<S> {
    pub service: Rc<S>,
}

impl RequestIdMiddleware {
    /// Wraps `service`.
    pub fn new_transform<S>(&self, service: S) -> (wrapped: RequestIdMiddlewareService<S>)
        ensures
            *wrapped.service == service,
    {
        RequestIdMiddlewareService { service: Rc::new(service) }
    }
}

impl<S> RequestIdMiddlewareService<S> {
    /// Receives a request: draws a fresh identity for it, reads the clock and opens it. The
    /// identity is a random UUID in its canonical lower-case form.
    pub fn begin(&self, metrics: &mut Metrics, method: &str, path: &str) -> (opened: (
        RequestContext,
        RequestEvent,
    ))
        ensures
            is_random_uuid(opened.0@.correlation_id),
            opened.0@.method == method@,
            opened.0@.raw_path == path@,
            reports_start(opened.1, opened.0@),
            final(metrics)@ == after_start(old(metrics)@, method@, normalized(path@)),
    {
        let correlation_id = random_uuid_text();
        let start_time = Instant::now();
        open_request(metrics, correlation_id, method, path, start_time)
    }

    /// Ends a request whose handler has returned: reads the clock and closes the request with
    /// the time that has passed since it was received.
    pub fn finish(&self, metrics: &mut Metrics, context: RequestContext, outcome: Outcome) -> (event:
        RequestEvent)
        ensures
            exists|elapsed_nanos: u64|
                closes(old(metrics)@, final(metrics)@, event, context@, outcome, elapsed_nanos),
    {
        let elapsed = context.start_time.elapsed();
        let elapsed_nanos = nanos_within_u64(elapsed.as_nanos());
        close_request(metrics, context, outcome, elapsed_nanos)
    }

    /// Ends a request whose handler will never return, as when it is cancelled: the request
    /// is no longer in flight, and nothing else is recorded.
    pub fn abandon(&self, metrics: &mut Metrics, context: RequestContext)
        ensures
            final(metrics)@ == after_release(
                old(metrics)@,
                context@.method,
                normalized(context@.raw_path),
            ),
    {
        proof {
            use_type_invariant(&context);
        }
        track_request_release(
            metrics,
            context.method.as_str(),
            context.normalized_endpoint.as_str(),
        );
    }
}

} // verus!
