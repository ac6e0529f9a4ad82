//! The in-flight gauge over the life of many requests: every request adds one when it starts
//! and takes one away when it leaves, in whatever order the requests interleave.

use vstd::prelude::*;
use crate::collectors::gauge_at;
use crate::metrics::{after_release, after_result, after_start, in_flight_key, MetricsState};

verus! {

/// What one request does to the metrics of its method and route label.
pub enum RequestStep {
    /// A request has started.
    Started,
    /// A request has completed or failed, with this status and after this time.
    Finished { status: u16, elapsed_nanos: u64 },
    /// A request has left without a result.
    Released,
}

/// The metrics after one step of a request with the given method and route label.
pub open spec fn metrics_after_step(
    state: MetricsState,
    method: Seq<char>,
    endpoint: Seq<char>,
    step: RequestStep,
) -> MetricsState {
    match step {
        RequestStep::Started => after_start(state, method, endpoint),
        RequestStep::Finished { status, elapsed_nanos } => after_result(
            state,
            method,
            endpoint,
            status,
            elapsed_nanos,
        ),
        RequestStep::Released => after_release(state, method, endpoint),
    }
}

/// The metrics after the steps of a trace, taken in order by requests that share a method and
/// a route label.
pub open spec fn metrics_after(
    state: MetricsState,
    method: Seq<char>,
    endpoint: Seq<char>,
    trace: Seq<RequestStep>,
) -> MetricsState
    decreases trace.len(),
{
    if trace.len() == 0 {
        state
    } else {
        metrics_after_step(
            metrics_after(state, method, endpoint, trace.drop_last()),
            method,
            endpoint,
            trace.last(),
        )
    }
}

/// The number of requests that start in a trace.
pub open spec fn started_count(trace: Seq<RequestStep>) -> nat
    decreases trace.len(),
{
    if trace.len() == 0 {
        0
    } else {
        started_count(trace.drop_last()) + (if trace.last() is Started {
            1nat
        } else {
            0nat
        })
    }
}

/// The number of requests that leave in a trace, with a result or without.
pub open spec fn left_count(trace: Seq<RequestStep>) -> nat
    decreases trace.len(),
{
    if trace.len() == 0 {
        0
    } else {
        left_count(trace.drop_last()) + (if trace.last() is Started {
            0nat
        } else {
            1nat
        })
    }
}

/// A trace that requests can produce: at no point have more requests left than started.
pub open spec fn is_paired(trace: Seq<RequestStep>) -> bool {
    forall|k: int|
        0 <= k <= trace.len() ==> left_count(#[trigger] trace.take(k)) <= started_count(
            trace.take(k),
        )
}

/// What the in-flight gauge of a method and a route label stands at.
pub open spec fn in_flight_of(state: MetricsState, method: Seq<char>, endpoint: Seq<char>) -> int {
    gauge_at(state.in_flight, in_flight_key(method, endpoint)) as int
}

/// A trace holds no more starts than steps.
proof fn lemma_started_count_bound(trace: Seq<RequestStep>)
    ensures
        started_count(trace) <= trace.len(),
    decreases trace.len(),
{
    if trace.len() > 0 {
        lemma_started_count_bound(trace.drop_last());
    }
}

/// A prefix of a paired trace is paired.
proof fn lemma_prefix_is_paired(trace: Seq<RequestStep>, k: int)
    requires
        is_paired(trace),
        0 <= k <= trace.len(),
    ensures
        is_paired(trace.take(k)),
{
    let prefix = trace.take(k);
    assert forall|j: int| 0 <= j <= prefix.len() implies left_count(#[trigger] prefix.take(j))
        <= started_count(prefix.take(j)) by {
        assert(prefix.take(j) == trace.take(j));
    }
}

/// After a paired trace the gauge has gained the requests that are still in flight.
proof fn lemma_gauge_counts_requests(
    state: MetricsState,
    method: Seq<char>,
    endpoint: Seq<char>,
    trace: Seq<RequestStep>,
)
    requires
        is_paired(trace),
        0 <= in_flight_of(state, method, endpoint),
        in_flight_of(state, method, endpoint) + trace.len() <= i64::MAX,
    ensures
        left_count(trace) <= started_count(trace),
        in_flight_of(metrics_after(state, method, endpoint, trace), method, endpoint)
            == in_flight_of(state, method, endpoint) + started_count(trace) - left_count(trace),
    decreases trace.len(),
{
    assert(trace.take(trace.len() as int) == trace);
    if trace.len() > 0 {
        let earlier = trace.drop_last();
        assert(earlier == trace.take(trace.len() - 1));
        lemma_prefix_is_paired(trace, trace.len() - 1);
        lemma_gauge_counts_requests(state, method, endpoint, earlier);
        lemma_started_count_bound(earlier);
    }
}

/// However the requests of one method and route label interleave, as long as fewer of them
/// are in flight at once than a 64-bit gauge can count: after every step the in-flight gauge
/// has gained exactly the requests that have started and not left, so it never falls below
/// where it stood, nor below zero; and once every request that started has left, whether it
/// completed, failed or was released, the gauge stands where it stood before the first.
pub proof fn lemma_in_flight_is_balanced(
    state: MetricsState,
    method: Seq<char>,
    endpoint: Seq<char>,
    trace: Seq<RequestStep>,
)
    requires
        is_paired(trace),
        0 <= in_flight_of(state, method, endpoint),
        in_flight_of(state, method, endpoint) + trace.len() <= i64::MAX,
    ensures
        forall|k: int|
            0 <= k <= trace.len() ==> in_flight_of(
                metrics_after(state, method, endpoint, #[trigger] trace.take(k)),
                method,
                endpoint,
            ) == in_flight_of(state, method, endpoint) + started_count(trace.take(k))
                - left_count(trace.take(k)),
        forall|k: int|
            0 <= k <= trace.len() ==> 0 <= in_flight_of(
                metrics_after(state, method, endpoint, #[trigger] trace.take(k)),
                method,
                endpoint,
            ),
        started_count(trace) == left_count(trace) ==> in_flight_of(
            metrics_after(state, method, endpoint, trace),
            method,
            endpoint,
        ) == in_flight_of(state, method, endpoint),
{
    lemma_gauge_counts_requests(state, method, endpoint, trace);
    assert forall|k: int| 0 <= k <= trace.len() implies in_flight_of(
        metrics_after(state, method, endpoint, #[trigger] trace.take(k)),
        method,
        endpoint,
    ) == in_flight_of(state, method, endpoint) + started_count(trace.take(k)) - left_count(
        trace.take(k),
    ) && left_count(trace.take(k)) <= started_count(trace.take(k)) by {
        lemma_prefix_is_paired(trace, k);
        lemma_gauge_counts_requests(state, method, endpoint, trace.take(k));
    }
}

} // verus!
