//! The request metrics: how many requests were handled, how long they took and how many are
//! in flight, each by method, route label and status.

use vstd::prelude::*;
use vstd::multiset::Multiset;
use vstd::string::*;
use vstd::utf8::encode_utf8;
use crate::collectors::{
    counter_at, counter_identity, counter_inc, counter_incremented, counter_name, counter_values,
    encode_text, gauge_name, histogram_name,
    encoded_text, encoding_failure, error_message, gather, gathered, bucket_of, buckets_at, buckets_observed,
    histogram_bounds, histogram_buckets, gauge_dec, gauge_decremented, gauge_identity,
    gauge_inc, gauge_incremented, gauge_values, histogram_identity, histogram_observe,
    histogram_observed, histogram_samples, holds_vectors_only, new_counter_family,
    new_gauge_family, new_histogram_family, new_registry, no_series, register_counters,
    register_gauges, register_histograms, registered, samples_at, series_key, CounterFamily,
    GaugeFamily, HistogramFamily,
};
use crate::descriptors::{
    lemma_descriptor_ids_differ, lemma_family_descriptions, lemma_labels_are_free,
};
use crate::text::{decimal_string, decimal_text};

verus! {

/// What the three metric families hold, each series under its key.
pub struct MetricsState {
    /// `http_requests_total`: the number of requests handled.
    pub requests_total: Map<u64, u64>,
    /// `http_request_duration_seconds`: the observed durations, in nanoseconds.
    pub request_durations: Map<u64, Multiset<u64>>,
    /// `http_request_duration_seconds`: how many observations fell into each latency bucket.
    pub latency_buckets: Map<u64, Seq<u64>>,
    /// `http_requests_in_flight`: the number of requests that have started and not finished.
    pub in_flight: Map<u64, i64>,
}

/// Why the metrics could not be set up or rendered, with the collector's message.
#[derive(Debug)]
pub enum MetricsError {
    /// A metric family was refused when it was made or registered.
    Registration(String),
    /// The snapshot could not be encoded.
    Encoding(String),
}

/// The metric families of one process and the registry that renders them. The registry holds
/// these three families and nothing else.
pub struct Metrics {
    registry: prometheus::Registry,
    requests_total: CounterFamily,
    request_durations: HistogramFamily,
    in_flight: GaugeFamily,
}

impl View for Metrics {
    type V = MetricsState;

    closed spec fn view(&self) -> MetricsState {
        MetricsState {
            requests_total: counter_values(self.requests_total),
            request_durations: histogram_samples(self.request_durations),
            latency_buckets: histogram_buckets(self.request_durations),
            in_flight: gauge_values(self.in_flight),
        }
    }
}

/// The key of the in-flight series of a method and a route label.
pub open spec fn in_flight_key(method: Seq<char>, endpoint: Seq<char>) -> u64 {
    series_key(seq![method, endpoint])
}

/// The key of the counter and histogram series of a method, a route label and a status.
pub open spec fn result_key(method: Seq<char>, endpoint: Seq<char>, status: u16) -> u64 {
    series_key(seq![method, endpoint, decimal_text(status as nat)])
}

/// The metrics before any request.
pub open spec fn no_requests() -> MetricsState {
    MetricsState {
        requests_total: no_series(),
        request_durations: no_series(),
        latency_buckets: no_series(),
        in_flight: no_series(),
    }
}

/// The metrics after a request has started: one more is in flight.
pub open spec fn after_start(
    state: MetricsState,
    method: Seq<char>,
    endpoint: Seq<char>,
) -> MetricsState {
    MetricsState {
        in_flight: gauge_incremented(state.in_flight, in_flight_key(method, endpoint)),
        ..state
    }
}

/// The metrics after a request has left without a result: one fewer is in flight.
pub open spec fn after_release(
    state: MetricsState,
    method: Seq<char>,
    endpoint: Seq<char>,
) -> MetricsState {
    MetricsState {
        in_flight: gauge_decremented(state.in_flight, in_flight_key(method, endpoint)),
        ..state
    }
}

/// The upper bounds of the latency buckets, in milliseconds: 5 ms to 5 s.
pub open spec fn latency_bounds() -> Seq<u64> {
    seq![5u64, 10, 25, 50, 100, 250, 500, 1000, 2500, 5000]
}

/// The metrics after a request has finished: one fewer is in flight, one more is counted
/// under its status, and its duration is observed under the same labels, in the latency
/// bucket with the smallest bound that is not below it, or in none if it is above them all.
pub open spec fn after_result(
    state: MetricsState,
    method: Seq<char>,
    endpoint: Seq<char>,
    status: u16,
    elapsed_nanos: u64,
) -> MetricsState {
    MetricsState {
        requests_total: counter_incremented(
            state.requests_total,
            result_key(method, endpoint, status),
        ),
        request_durations: histogram_observed(
            state.request_durations,
            result_key(method, endpoint, status),
            elapsed_nanos,
        ),
        latency_buckets: buckets_observed(
            state.latency_buckets,
            latency_bounds(),
            result_key(method, endpoint, status),
            elapsed_nanos,
        ),
        in_flight: gauge_decremented(state.in_flight, in_flight_key(method, endpoint)),
    }
}

/// A finished request is recorded exactly once. The counter series of its method, route
/// label and status gains one, unless it stands at the top of `u64`; the histogram series of the
/// same labels gains the request's duration as one more observation; and no other counter
/// or histogram series changes.
pub proof fn lemma_result_is_recorded_once(
    state: MetricsState,
    method: Seq<char>,
    endpoint: Seq<char>,
    status: u16,
    elapsed_nanos: u64,
)
    ensures
        ({
            let after = after_result(state, method, endpoint, status, elapsed_nanos);
            let key = result_key(method, endpoint, status);
            &&& counter_at(state.requests_total, key) < u64::MAX ==> counter_at(
                after.requests_total,
                key,
            ) == counter_at(state.requests_total, key) + 1
            &&& samples_at(after.request_durations, key) == samples_at(
                state.request_durations,
                key,
            ).insert(elapsed_nanos)
            &&& samples_at(after.request_durations, key).len() == samples_at(
                state.request_durations,
                key,
            ).len() + 1
            &&& forall|other: u64|
                other != key ==> counter_at(after.requests_total, other) == counter_at(
                    state.requests_total,
                    other,
                ) && samples_at(after.request_durations, other) == samples_at(
                    state.request_durations,
                    other,
                )
        }),
{
    broadcast use vstd::multiset::group_multiset_axioms;

}

/// Whether `rendered` is what rendering makes of the snapshot `families`: the encoder's text
/// for the snapshot, or, where the encoder gives none, the failure to encode.
pub open spec fn renders(
    families: Seq<prometheus::proto::MetricFamily>,
    rendered: Result<Vec<u8>, MetricsError>,
) -> bool {
    match rendered {
        Ok(body) => encoded_text(families) == Some(body@),
        Err(error) => {
            &&& error is Encoding
            &&& error.message() == encoding_failure(families)
            &&& encoded_text(families) is None
        },
    }
}

/// The bucket that takes a duration is the one with the smallest bound that is not below the
/// duration; a duration above every bound is taken by the overflow bucket, which stands behind
/// the last.
pub proof fn lemma_bucket_has_smallest_bound(bounds_ms: Seq<u64>, nanos: u64)
    ensures
        0 <= bucket_of(bounds_ms, nanos) <= bounds_ms.len(),
        forall|i: int|
            0 <= i < bucket_of(bounds_ms, nanos) ==> #[trigger] bounds_ms[i] * 1_000_000 < nanos,
        bucket_of(bounds_ms, nanos) < bounds_ms.len() ==> nanos <= bounds_ms[bucket_of(
            bounds_ms,
            nanos,
        )] * 1_000_000,
    decreases bounds_ms.len(),
{
    if bounds_ms.len() > 0 && nanos > bounds_ms[0] * 1_000_000 {
        let rest = bounds_ms.skip(1);
        lemma_bucket_has_smallest_bound(rest, nanos);
        assert forall|i: int| 0 <= i < bucket_of(bounds_ms, nanos) implies #[trigger] bounds_ms[i]
            * 1_000_000 < nanos by {
            if i > 0 {
                assert(bounds_ms[i] == rest[i - 1]);
            }
        }
        assert(bucket_of(rest, nanos) < rest.len() ==> rest[bucket_of(rest, nanos)]
            == bounds_ms[bucket_of(bounds_ms, nanos)]);
    }
}

/// An observation falls into one bucket at most. In a series that keeps one count for each
/// bound, the bucket that takes the duration gains one, unless it stands at the top of `u64`,
/// and no other bucket of the series changes; a duration above every bound changes no bucket.
/// No other series changes. A finished request is observed so, with the latency bounds, in
/// the series of its method, route label and status.
pub proof fn lemma_observation_falls_into_its_bucket(
    buckets: Map<u64, Seq<u64>>,
    bounds_ms: Seq<u64>,
    key: u64,
    nanos: u64,
)
    requires
        buckets_at(buckets, bounds_ms, key).len() == bounds_ms.len(),
    ensures
        ({
            let after = buckets_observed(buckets, bounds_ms, key, nanos);
            let bucket = bucket_of(bounds_ms, nanos);
            let before = buckets_at(buckets, bounds_ms, key);
            let counts = buckets_at(after, bounds_ms, key);
            &&& counts.len() == before.len()
            &&& 0 <= bucket < before.len() && before[bucket] < u64::MAX ==> counts[bucket]
                == before[bucket] + 1
            &&& forall|i: int| 0 <= i < before.len() && i != bucket ==> counts[i] == before[i]
            &&& forall|other: u64|
                other != key ==> buckets_at(after, bounds_ms, other) == buckets_at(
                    buckets,
                    bounds_ms,
                    other,
                )
        }),
{
    lemma_bucket_has_smallest_bound(bounds_ms, nanos);
}

/// The upper bounds of the latency buckets, in milliseconds: 5 ms to 5 s.
pub fn latency_bounds_ms() -> (bounds: Vec<u64>)
    ensures
        bounds@ == latency_bounds(),
{
    vec![5, 10, 25, 50, 100, 250, 500, 1000, 2500, 5000]
}

/// Makes the family `http_requests_total`.
fn new_requests_total() -> (made: Result<CounterFamily, MetricsError>)
    ensures
        made is Ok,
        made matches Ok(family) ==> counter_values(family) == no_series::<u64>(),
        made matches Ok(family) ==> counter_name(family) == "http_requests_total"@,
{
    proof {
        lemma_family_descriptions();
    }
    match new_counter_family(
        "http_requests_total",
        "Total number of HTTP requests processed",
        "method",
        "endpoint",
        "status",
    ) {
        Ok(family) => Ok(family),
        Err(error) => Err(MetricsError::Registration(error_message(&error))),
    }
}

/// Makes the family `http_request_duration_seconds`, with the latency buckets.
fn new_request_durations() -> (made: Result<HistogramFamily, MetricsError>)
    ensures
        made is Ok,
        made matches Ok(family) ==> histogram_samples(family) == no_series::<Multiset<u64>>(),
        made matches Ok(family) ==> histogram_buckets(family) == no_series::<Seq<u64>>(),
        made matches Ok(family) ==> histogram_bounds(family) == latency_bounds(),
        made matches Ok(family) ==> histogram_name(family) == "http_request_duration_seconds"@,
{
    proof {
        lemma_family_descriptions();
        lemma_labels_are_free();
    }
    let bounds = latency_bounds_ms();
    match new_histogram_family(
        "http_request_duration_seconds",
        "HTTP request latency in seconds",
        &bounds,
        "method",
        "endpoint",
        "status",
    ) {
        Ok(family) => Ok(family),
        Err(error) => Err(MetricsError::Registration(error_message(&error))),
    }
}

/// Makes the family `http_requests_in_flight`.
fn new_in_flight() -> (made: Result<GaugeFamily, MetricsError>)
    ensures
        made is Ok,
        made matches Ok(family) ==> gauge_values(family) == no_series::<i64>(),
        made matches Ok(family) ==> gauge_name(family) == "http_requests_in_flight"@,
{
    proof {
        lemma_family_descriptions();
    }
    match new_gauge_family(
        "http_requests_in_flight",
        "In-flight HTTP requests",
        "method",
        "endpoint",
    ) {
        Ok(family) => Ok(family),
        Err(error) => Err(MetricsError::Registration(error_message(&error))),
    }
}

impl Metrics {
    #[verifier::type_invariant]
    spec fn is_rendered_by_registry(self) -> bool {
        &&& histogram_bounds(self.request_durations) == latency_bounds()
        &&& holds_vectors_only(self.registry)
        &&& registered(self.registry) == seq![
            counter_identity(self.requests_total),
            histogram_identity(self.request_durations),
            gauge_identity(self.in_flight),
        ]
    }

    /// The snapshot that a scrape of the metrics takes: what the registry gathers from the
    /// three families as they stand.
    pub closed spec fn snapshot(&self) -> Seq<prometheus::proto::MetricFamily> {
        gathered(self.registry, self.requests_total, self.request_durations, self.in_flight)
    }

    /// Makes the three metric families and registers them in a registry of their own. Their
    /// names, help texts and label names are fixed and well-formed, and their descriptor
    /// identifiers differ, so this always succeeds; no series exists yet.
    pub fn new() -> (made: Result<Metrics, MetricsError>)
        ensures
            made is Ok,
            made matches Ok(metrics) ==> metrics@ == no_requests(),
    {
        let requests_total = new_requests_total()?;
        let request_durations = new_request_durations()?;
        let in_flight = new_in_flight()?;
        let mut registry = new_registry();
        proof {
            lemma_descriptor_ids_differ();
        }
        if let Err(error) = register_counters(&mut registry, &requests_total) {
            return Err(MetricsError::Registration(error_message(&error)));
        }
        if let Err(error) = register_histograms(&mut registry, &request_durations) {
            return Err(MetricsError::Registration(error_message(&error)));
        }
        if let Err(error) = register_gauges(&mut registry, &in_flight) {
            return Err(MetricsError::Registration(error_message(&error)));
        }
        assert(registered(registry) == seq![
            counter_identity(requests_total),
            histogram_identity(request_durations),
            gauge_identity(in_flight),
        ]);
        Ok(Metrics { registry, requests_total, request_durations, in_flight })
    }

    /// Takes a snapshot of the metrics as they stand and renders it in the text exposition
    /// format: what is handed out is the encoder's text for the snapshot, whole and unchanged.
    /// The encoder decides whether it gives a text; if it gives none, no text is handed out,
    /// only the reason.
    pub fn render(&self) -> (rendered: Result<Vec<u8>, MetricsError>)
        ensures
            renders(self.snapshot(), rendered),
    {
        proof {
            use_type_invariant(self);
        }
        let families = gather(
            &self.registry,
            &self.requests_total,
            &self.request_durations,
            &self.in_flight,
        );
        match encode_text(&families) {
            Ok(body) => Ok(body),
            Err(error) => Err(MetricsError::Encoding(error_message(&error))),
        }
    }
}

/// Records that a request has started.
pub fn track_request_start(metrics: &mut Metrics, method: &str, endpoint: &str)
    ensures
        final(metrics)@ == after_start(old(metrics)@, method@, endpoint@),
{
    proof {
        use_type_invariant(&*metrics);
    }
    gauge_inc(&mut metrics.in_flight, method, endpoint);
}

/// Records that a request has left without a result, as when it is cancelled.
pub fn track_request_release(metrics: &mut Metrics, method: &str, endpoint: &str)
    ensures
        final(metrics)@ == after_release(old(metrics)@, method@, endpoint@),
{
    proof {
        use_type_invariant(&*metrics);
    }
    gauge_dec(&mut metrics.in_flight, method, endpoint);
}

/// Records that a request has finished with `status` after `elapsed_nanos` nanoseconds.
pub fn track_request_result(
    metrics: &mut Metrics,
    method: &str,
    endpoint: &str,
    status: u16,
    elapsed_nanos: u64,
)
    ensures
        final(metrics)@ == after_result(old(metrics)@, method@, endpoint@, status, elapsed_nanos),
{
    proof {
        use_type_invariant(&*metrics);
    }
    let status_label = decimal_string(status as u64);
    gauge_dec(&mut metrics.in_flight, method, endpoint);
    counter_inc(&mut metrics.requests_total, method, endpoint, status_label.as_str());
    histogram_observe(
        &mut metrics.request_durations,
        method,
        endpoint,
        status_label.as_str(),
        elapsed_nanos,
    );
}

/// The answer to a scrape of the metrics: a status, a content type and a body.
#[derive(Debug)]
pub struct MetricsResponse {
    pub status: u16,
    pub content_type: String,
    pub body: Vec<u8>,
}

impl MetricsError {
    /// The collector's message.
    pub open spec fn message(self) -> Seq<char> {
        match self {
            MetricsError::Registration(message) => message@,
            MetricsError::Encoding(message) => message@,
        }
    }

    /// The collector's message.
    pub fn message_text(&self) -> (text: &str)
        ensures
            text@ == self.message(),
    {
        match self {
            MetricsError::Registration(message) => message.as_str(),
            MetricsError::Encoding(message) => message.as_str(),
        }
    }
}

/// The body that reports a failure to render: a fixed prefix and the reason.
pub open spec fn failure_text(reason: Seq<char>) -> Seq<char> {
    "failed to encode metrics: "@ + reason
}

/// Whether `response` is the answer to a scrape that was rendered as `rendered`: the rendered
/// text with the content type of the exposition format and status 200, or the reason of the
/// failure as plain text with status 500.
pub open spec fn answers(rendered: Result<Vec<u8>, MetricsError>, response: MetricsResponse) -> bool {
    match rendered {
        Ok(body) => {
            &&& response.status == 200
            &&& response.content_type@ == "text/plain; version=0.0.4"@
            &&& response.body@ == body@
        },
        Err(error) => {
            &&& response.status == 500
            &&& response.content_type@ == "text/plain; charset=utf-8"@
            &&& response.body@ == encode_utf8(failure_text(error.message()))
        },
    }
}

/// Shapes the answer to a scrape from what rendering the metrics gave.
pub fn exposition_response(rendered: Result<Vec<u8>, MetricsError>) -> (response: MetricsResponse)
    ensures
        answers(rendered, response),
{
    match rendered {
        Ok(body) => MetricsResponse {
            status: 200,
            content_type: "text/plain; version=0.0.4".to_owned(),
            body,
        },
        Err(error) => {
            let text = "failed to encode metrics: ".to_owned().concat(error.message_text());
            MetricsResponse {
                status: 500,
                content_type: "text/plain; charset=utf-8".to_owned(),
                body: text.as_str().as_bytes_vec(),
            }
        },
    }
}

/// Whether `response` answers a scrape that took the snapshot `families`: with the response
/// to the rendering of that snapshot, however the rendering went.
pub open spec fn is_scrape_answer(
    families: Seq<prometheus::proto::MetricFamily>,
    response: MetricsResponse,
) -> bool {
    exists|rendered: Result<Vec<u8>, MetricsError>|
        renders(families, rendered) && answers(rendered, response)
}

/// Answers a scrape: renders the metrics as they stand and shapes the response. The encoder
/// decides whether rendering succeeds.
pub fn metrics_handler(metrics: &Metrics) -> (response: MetricsResponse)
    ensures
        is_scrape_answer(metrics.snapshot(), response),
{
    let rendered = metrics.render();
    let ghost witness = rendered;
    let response = exposition_response(rendered);
    assert(renders(metrics.snapshot(), witness) && answers(witness, response));
    response
}

} // verus!
