//! The Prometheus collectors that hold the request metrics, and what is taken on trust of them.
//!
//! Nothing in this file is proved. Each function calls into the `prometheus` crate, and its
//! contract says what that crate's source shows of the call.
//!
//! A collector files each series under a 64-bit hash of its label values, written one after
//! another. The contracts therefore speak of a series by that key, never by the label values
//! themselves: two lists of label values with one key share one series.
//!
//! The collectors update their series through shared references. Here every update takes the
//! family by `&mut`, so that what a family holds changes only where a contract says so; a
//! family is never cloned, and the registry that renders it only reads. Which vectors a
//! registry reads is kept track of by their identities, which no update changes. No update
//! unwinds: a vector panics only on a wrong number of label values, or, for a histogram, on
//! what the `requires` of its making rules out.

use vstd::prelude::*;
use vstd::multiset::Multiset;
use vstd::utf8::encode_utf8;
use crate::text::is_digit;

verus! {

/// The error type of the `prometheus` crate, carried through as it is.
#[verifier::external_type_specification]
#[verifier::external_body]
pub struct ExPrometheusError(prometheus::Error);

/// The registry of the `prometheus` crate, carried through as it is.
#[verifier::external_type_specification]
#[verifier::external_body]
pub struct ExRegistry(prometheus::Registry);

/// The snapshot of one metric family as the `prometheus` crate gathers it, carried through
/// as it is.
#[verifier::external_type_specification]
#[verifier::external_body]
pub struct ExMetricFamily(prometheus::proto::MetricFamily);

/// A `prometheus::IntCounterVec` that was made with three label names. The vector's type is
/// built from types that the crate keeps private, so it is held here out of the verifier's
/// sight.
#[verifier::external_body]
pub struct CounterFamily {
    inner: prometheus::IntCounterVec,
}

/// A `prometheus::IntGaugeVec` that was made with two label names, held like the counters.
#[verifier::external_body]
pub struct GaugeFamily {
    inner: prometheus::IntGaugeVec,
}

/// A `prometheus::HistogramVec` that was made with three label names and ascending bucket
/// bounds, held like the counters. It observes durations in seconds.
#[verifier::external_body]
pub struct HistogramFamily {
    inner: prometheus::HistogramVec,
}

/// The state that the FNV-1a hash starts from.
pub const FNV_OFFSET_BASIS: u64 = 0xcbf29ce484222325;

/// The prime of the 64-bit FNV-1a hash.
pub const FNV_PRIME: u64 = 0x100000001b3;

/// The byte that is hashed behind the name of a metric family.
pub const NAME_SEPARATOR: u8 = 0xff;

/// One step of the FNV-1a hash: the byte is mixed into the state, which is then multiplied
/// by the prime, in 64 bits.
pub open spec fn fnv_step(hash: u64, byte: u8) -> u64 {
    (((hash ^ (byte as u64)) * FNV_PRIME) % 0x1_0000_0000_0000_0000) as u64
}

/// The FNV-1a hash of `bytes`, from the state `hash` on.
pub open spec fn fnv_bytes(hash: u64, bytes: Seq<u8>) -> u64
    decreases bytes.len(),
{
    if bytes.len() == 0 {
        hash
    } else {
        fnv_step(fnv_bytes(hash, bytes.drop_last()), bytes.last())
    }
}

/// The FNV-1a hash of the UTF-8 bytes of `texts`, one text after another, from the state
/// `hash` on.
pub open spec fn fnv_texts(hash: u64, texts: Seq<Seq<char>>) -> u64
    decreases texts.len(),
{
    if texts.len() == 0 {
        hash
    } else {
        fnv_bytes(fnv_texts(hash, texts.drop_last()), encode_utf8(texts.last()))
    }
}

/// The key under which a vector files the series with the given label values: the FNV-1a
/// hash that `MetricVec` computes over the bytes of the values, taken in order.
#[verifier::opaque]
pub open spec fn series_key(label_values: Seq<Seq<char>>) -> u64 {
    fnv_texts(FNV_OFFSET_BASIS, label_values)
}

/// The identifier under which a registry knows a metric family without constant labels: the
/// FNV-1a hash of its name and the separator byte.
#[verifier::opaque]
pub open spec fn descriptor_id(name: Seq<char>) -> u64 {
    fnv_step(fnv_bytes(FNV_OFFSET_BASIS, encode_utf8(name)), NAME_SEPARATOR)
}

/// A character that a label name can start with: an ASCII letter or an underscore.
pub open spec fn is_name_char(c: char) -> bool {
    ('a' <= c <= 'z') || ('A' <= c <= 'Z') || c == '_'
}

/// A label name: a name character, then name characters and digits.
pub open spec fn is_label_name(s: Seq<char>) -> bool {
    &&& s.len() > 0
    &&& is_name_char(s[0])
    &&& forall|i: int| 0 < i < s.len() ==> is_name_char(#[trigger] s[i]) || is_digit(s[i])
}

/// A metric name: like a label name, with the colon as one more name character.
pub open spec fn is_metric_name(s: Seq<char>) -> bool {
    &&& s.len() > 0
    &&& (is_name_char(s[0]) || s[0] == ':')
    &&& forall|i: int|
        0 < i < s.len() ==> is_name_char(#[trigger] s[i]) || s[i] == ':' || is_digit(s[i])
}

/// What a vector can be made with: a help text that is not empty, a metric name, and label
/// names of which no two are the same.
pub open spec fn is_family_description(
    name: Seq<char>,
    help: Seq<char>,
    labels: Seq<Seq<char>>,
) -> bool {
    &&& help.len() > 0
    &&& is_metric_name(name)
    &&& forall|i: int| 0 <= i < labels.len() ==> is_label_name(#[trigger] labels[i])
    &&& forall|i: int, j: int| 0 <= i < j < labels.len() ==> labels[i] != labels[j]
}

/// Which vector a counter family is. It stays the same whatever the family counts.
pub uninterp spec fn counter_identity(family: CounterFamily) -> int;

/// Which vector a gauge family is. It stays the same whatever the family counts.
pub uninterp spec fn gauge_identity(family: GaugeFamily) -> int;

/// Which vector a histogram family is. It stays the same whatever the family observes.
pub uninterp spec fn histogram_identity(family: HistogramFamily) -> int;

/// The name that a counter family was made with.
pub uninterp spec fn counter_name(family: CounterFamily) -> Seq<char>;

/// The name that a gauge family was made with.
pub uninterp spec fn gauge_name(family: GaugeFamily) -> Seq<char>;

/// The name that a histogram family was made with.
pub uninterp spec fn histogram_name(family: HistogramFamily) -> Seq<char>;

/// Whether a registry was made empty by `Registry::new` and has since taken nothing but
/// vectors of this file, and given none back.
pub uninterp spec fn holds_vectors_only(registry: prometheus::Registry) -> bool;

/// The vectors that a registry holds, by their identities, in the order in which it took them.
pub uninterp spec fn registered(registry: prometheus::Registry) -> Seq<int>;

/// The descriptor identifiers of the vectors that a registry holds.
pub uninterp spec fn registered_ids(registry: prometheus::Registry) -> Set<u64>;

/// What `Registry::gather` returns for a registry and the three vectors that it holds, as
/// they stand.
pub uninterp spec fn gathered(
    registry: prometheus::Registry,
    counters: CounterFamily,
    histograms: HistogramFamily,
    gauges: GaugeFamily,
) -> Seq<prometheus::proto::MetricFamily>;

/// Whether every family of a snapshot is a counter, a gauge or a histogram.
pub uninterp spec fn are_typed(families: Seq<prometheus::proto::MetricFamily>) -> bool;

/// The value of each series of a counter vector, by key.
pub uninterp spec fn counter_values(family: CounterFamily) -> Map<u64, u64>;

/// The value of each series of a gauge vector, by key.
pub uninterp spec fn gauge_values(family: GaugeFamily) -> Map<u64, i64>;

/// The durations, in nanoseconds, that each series of a histogram vector has observed, by
/// key. The vector itself keeps a summary of them: their number, their sum in seconds and
/// the number that fell into each bucket.
pub uninterp spec fn histogram_samples(family: HistogramFamily) -> Map<u64, Multiset<u64>>;

/// The bucket bounds, in milliseconds, that a histogram vector was made with.
pub uninterp spec fn histogram_bounds(family: HistogramFamily) -> Seq<u64>;

/// For each series of a histogram vector, by key, the number of observations that fell into
/// each of its buckets, one number for each bound. An observation above every bound is in none
/// of them.
pub uninterp spec fn histogram_buckets(family: HistogramFamily) -> Map<u64, Seq<u64>>;

/// The text exposition of a snapshot: what `TextEncoder::encode` writes for the gathered
/// families, taken in order, or nothing where it fails.
pub uninterp spec fn encoded_text(families: Seq<prometheus::proto::MetricFamily>) -> Option<
    Seq<u8>,
>;

/// The message of the error with which `TextEncoder::encode` fails on a snapshot.
pub uninterp spec fn encoding_failure(families: Seq<prometheus::proto::MetricFamily>) -> Seq<
    char,
>;

/// The message of an error of the `prometheus` crate: what its `to_string` gives.
pub uninterp spec fn message_of(error: prometheus::Error) -> Seq<char>;

/// A family without any series.
pub open spec fn no_series<V>() -> Map<u64, V> {
    Map::empty()
}

/// The value of the counter series `key`; a series that does not exist yet counts as 0.
pub open spec fn counter_at(values: Map<u64, u64>, key: u64) -> u64 {
    if values.dom().contains(key) {
        values[key]
    } else {
        0
    }
}

/// The value of the gauge series `key`; a series that does not exist yet counts as 0.
pub open spec fn gauge_at(values: Map<u64, i64>, key: u64) -> i64 {
    if values.dom().contains(key) {
        values[key]
    } else {
        0
    }
}

/// What the histogram series `key` has observed; nothing, if it does not exist yet.
pub open spec fn samples_at(samples: Map<u64, Multiset<u64>>, key: u64) -> Multiset<u64> {
    if samples.dom().contains(key) {
        samples[key]
    } else {
        Multiset::empty()
    }
}

/// The counters after one increment of the series `key`. The addition wraps at the top of
/// `u64`.
pub open spec fn counter_incremented(values: Map<u64, u64>, key: u64) -> Map<u64, u64> {
    let value = counter_at(values, key);
    values.insert(
        key,
        if value == u64::MAX {
            0
        } else {
            (value + 1) as u64
        },
    )
}

/// The gauges after one increment of the series `key`. The addition wraps at the top of `i64`.
pub open spec fn gauge_incremented(values: Map<u64, i64>, key: u64) -> Map<u64, i64> {
    let value = gauge_at(values, key);
    values.insert(
        key,
        if value == i64::MAX {
            i64::MIN
        } else {
            (value + 1) as i64
        },
    )
}

/// The gauges after one decrement of the series `key`. The subtraction wraps at the bottom of
/// `i64`.
pub open spec fn gauge_decremented(values: Map<u64, i64>, key: u64) -> Map<u64, i64> {
    let value = gauge_at(values, key);
    values.insert(
        key,
        if value == i64::MIN {
            i64::MAX
        } else {
            (value - 1) as i64
        },
    )
}

/// The histograms after the series `key` has observed `nanos` nanoseconds.
pub open spec fn histogram_observed(
    samples: Map<u64, Multiset<u64>>,
    key: u64,
    nanos: u64,
) -> Map<u64, Multiset<u64>> {
    samples.insert(key, samples_at(samples, key).insert(nanos))
}

/// The bucket that takes a duration of `nanos` nanoseconds: the first whose bound, in
/// milliseconds, is not below the duration; where every bound is below it, the number of
/// bounds, which stands for the overflow bucket.
pub open spec fn bucket_of(bounds_ms: Seq<u64>, nanos: u64) -> int
    decreases bounds_ms.len(),
{
    if bounds_ms.len() == 0 || nanos <= bounds_ms[0] * 1_000_000 {
        0
    } else {
        1 + bucket_of(bounds_ms.skip(1), nanos)
    }
}

/// The bucket counts of the histogram series `key`; all zero, if it does not exist yet.
pub open spec fn buckets_at(buckets: Map<u64, Seq<u64>>, bounds_ms: Seq<u64>, key: u64) -> Seq<
    u64,
> {
    if buckets.dom().contains(key) {
        buckets[key]
    } else {
        Seq::new(bounds_ms.len(), |i: int| 0u64)
    }
}

/// The bucket counts after the series `key` has observed `nanos` nanoseconds: the bucket that
/// takes the duration gains one, by an addition that wraps at the top of `u64`; an observation
/// above every bound changes none.
pub open spec fn buckets_observed(
    buckets: Map<u64, Seq<u64>>,
    bounds_ms: Seq<u64>,
    key: u64,
    nanos: u64,
) -> Map<u64, Seq<u64>> {
    let counts = buckets_at(buckets, bounds_ms, key);
    let bucket = bucket_of(bounds_ms, nanos);
    buckets.insert(
        key,
        if bucket < bounds_ms.len() {
            counts.update(
                bucket,
                if counts[bucket] == u64::MAX {
                    0
                } else {
                    (counts[bucket] + 1) as u64
                },
            )
        } else {
            counts
        },
    )
}

/// Bucket bounds that a histogram can be made with: at least one, strictly ascending, each
/// small enough for its millisecond to survive the conversion to seconds.
pub open spec fn are_bucket_bounds(bounds_ms: Seq<u64>) -> bool {
    &&& bounds_ms.len() > 0
    &&& forall|i: int| 0 <= i < bounds_ms.len() ==> #[trigger] bounds_ms[i] <= u32::MAX
    &&& forall|i: int, j: int| 0 <= i < j < bounds_ms.len() ==> bounds_ms[i] < bounds_ms[j]
}

/// The name of the label that a histogram keeps for its bucket bounds.
pub open spec fn bucket_label() -> Seq<char> {
    seq!['l', 'e']
}

/// Calls `prometheus::IntCounterVec::new` with options made of `name` and `help` and with three
/// label names. The crate makes the vector if and only if its descriptor can be made: the help
/// text is not empty, the name is a metric name, and the label names are label names of which
/// no two are the same. A vector that was made has no series yet.
#[verifier::external_body]
pub(crate) fn new_counter_family(
    name: &str,
    help: &str,
    first: &str,
    second: &str,
    third: &str,
) -> (made: Result<CounterFamily, prometheus::Error>)
    ensures
        made is Ok <==> is_family_description(name@, help@, seq![first@, second@, third@]),
        made matches Ok(family) ==> counter_values(family) == no_series::<u64>(),
        made matches Ok(family) ==> counter_name(family) == name@,
{
    let opts = prometheus::Opts::new(name, help);
    prometheus::IntCounterVec::new(opts, &[first, second, third]).map(
        |inner| CounterFamily { inner },
    )
}

/// Calls `prometheus::IntGaugeVec::new` with options made of `name` and `help` and with two
/// label names. The crate makes the vector if and only if its descriptor can be made, as for
/// the counters. A vector that was made has no series yet.
#[verifier::external_body]
pub(crate) fn new_gauge_family(name: &str, help: &str, first: &str, second: &str) -> (made: Result<
    GaugeFamily,
    prometheus::Error,
>)
    ensures
        made is Ok <==> is_family_description(name@, help@, seq![first@, second@]),
        made matches Ok(family) ==> gauge_values(family) == no_series::<i64>(),
        made matches Ok(family) ==> gauge_name(family) == name@,
{
    let opts = prometheus::Opts::new(name, help);
    prometheus::IntGaugeVec::new(opts, &[first, second]).map(|inner| GaugeFamily { inner })
}

/// Calls `prometheus::HistogramVec::new` with options made of `name`, `help` and the bucket
/// bounds, handed over in seconds, and with three label names. The crate makes the vector if
/// and only if its descriptor can be made, as for the counters. A vector that was made has no
/// series yet. The crate looks at the bounds and for a label named `le` only when a series is
/// first used, and panics there if the bounds do not ascend or such a label exists: the
/// `requires` rules both out. The vector keeps the bounds it was made with.
#[verifier::external_body]
pub(crate) fn new_histogram_family(
    name: &str,
    help: &str,
    bounds_ms: &Vec<u64>,
    first: &str,
    second: &str,
    third: &str,
) -> (made: Result<HistogramFamily, prometheus::Error>)
    requires
        are_bucket_bounds(bounds_ms@),
        first@ != bucket_label(),
        second@ != bucket_label(),
        third@ != bucket_label(),
    ensures
        made is Ok <==> is_family_description(name@, help@, seq![first@, second@, third@]),
        made matches Ok(family) ==> histogram_samples(family) == no_series::<Multiset<u64>>(),
        made matches Ok(family) ==> histogram_buckets(family) == no_series::<Seq<u64>>(),
        made matches Ok(family) ==> histogram_bounds(family) == bounds_ms@,
        made matches Ok(family) ==> histogram_name(family) == name@,
{
    let seconds = bounds_ms.iter().map(
        |ms| std::time::Duration::from_millis(*ms).as_secs_f64(),
    ).collect();
    let opts = prometheus::HistogramOpts::new(name, help).buckets(seconds);
    prometheus::HistogramVec::new(opts, &[first, second, third]).map(
        |inner| HistogramFamily { inner },
    )
}

/// Calls `with_label_values(..).inc()` on the counter vector: the series under the key of the
/// three values is made with the value 0 if it does not exist, and gains one by an atomic
/// addition that wraps. No other series changes, and the vector stays the vector it is.
#[verifier::external_body]
pub(crate) fn counter_inc(family: &mut CounterFamily, first: &str, second: &str, third: &str)
    ensures
        counter_values(*final(family)) == counter_incremented(
            counter_values(*old(family)),
            series_key(seq![first@, second@, third@]),
        ),
        counter_identity(*final(family)) == counter_identity(*old(family)),
    no_unwind
{
    family.inner.with_label_values(&[first, second, third]).inc()
}

/// Calls `with_label_values(..).inc()` on the gauge vector: the series under the key of the
/// two values is made with the value 0 if it does not exist, and gains one by an atomic
/// addition that wraps. No other series changes, and the vector stays the vector it is.
#[verifier::external_body]
pub(crate) fn gauge_inc(family: &mut GaugeFamily, first: &str, second: &str)
    ensures
        gauge_values(*final(family)) == gauge_incremented(
            gauge_values(*old(family)),
            series_key(seq![first@, second@]),
        ),
        gauge_identity(*final(family)) == gauge_identity(*old(family)),
    no_unwind
{
    family.inner.with_label_values(&[first, second]).inc()
}

/// Calls `with_label_values(..).dec()` on the gauge vector: the series under the key of the
/// two values is made with the value 0 if it does not exist, and loses one by an atomic
/// subtraction that wraps. No other series changes, and the vector stays the vector it is.
#[verifier::external_body]
pub(crate) fn gauge_dec(family: &mut GaugeFamily, first: &str, second: &str)
    ensures
        gauge_values(*final(family)) == gauge_decremented(
            gauge_values(*old(family)),
            series_key(seq![first@, second@]),
        ),
        gauge_identity(*final(family)) == gauge_identity(*old(family)),
    no_unwind
{
    family.inner.with_label_values(&[first, second]).dec()
}

/// Calls `with_label_values(..).observe(..)` on the histogram vector, with `nanos` nanoseconds
/// handed over in seconds: the series under the key of the three values is made if it does
/// not exist, and takes the duration as one more observation: the first bucket whose bound
/// is not below the duration gains one, by an atomic addition that wraps. No other series
/// changes, and the vector stays the vector it is, with its bounds. The vector compares in
/// seconds, as 64-bit floats; a bound of whole milliseconds below 2^32 and a duration of
/// whole nanoseconds compare there as they do as whole numbers. The sum of the observations
/// is a float and is not stated.
#[verifier::external_body]
pub(crate) fn histogram_observe(
    family: &mut HistogramFamily,
    first: &str,
    second: &str,
    third: &str,
    nanos: u64,
)
    ensures
        histogram_samples(*final(family)) == histogram_observed(
            histogram_samples(*old(family)),
            series_key(seq![first@, second@, third@]),
            nanos,
        ),
        histogram_buckets(*final(family)) == buckets_observed(
            histogram_buckets(*old(family)),
            histogram_bounds(*old(family)),
            series_key(seq![first@, second@, third@]),
            nanos,
        ),
        histogram_bounds(*final(family)) == histogram_bounds(*old(family)),
        histogram_identity(*final(family)) == histogram_identity(*old(family)),
    no_unwind
{
    let seconds = std::time::Duration::from_nanos(nanos).as_secs_f64();
    family.inner.with_label_values(&[first, second, third]).observe(seconds)
}

/// Calls `prometheus::Registry::new`: a registry that holds nothing.
#[verifier::external_body]
pub(crate) fn new_registry() -> (registry: prometheus::Registry)
    ensures
        holds_vectors_only(registry),
        registered(registry) == Seq::<int>::empty(),
        registered_ids(registry) == Set::<u64>::empty(),
{
    prometheus::Registry::new()
}

/// Calls `prometheus::Registry::register` with a handle to the counter vector. A registry
/// that holds vectors only takes one more if and only if it holds none with the same
/// descriptor identifier; it then reads this vector too, behind the others.
#[verifier::external_body]
pub(crate) fn register_counters(registry: &mut prometheus::Registry, family: &CounterFamily) -> (done:
    Result<(), prometheus::Error>)
    requires
        holds_vectors_only(*old(registry)),
    ensures
        holds_vectors_only(*final(registry)),
        done is Ok <==> !registered_ids(*old(registry)).contains(
            descriptor_id(counter_name(*family)),
        ),
        done is Ok ==> registered(*final(registry)) == registered(*old(registry)).push(
            counter_identity(*family),
        ),
        done is Ok ==> registered_ids(*final(registry)) == registered_ids(*old(registry)).insert(
            descriptor_id(counter_name(*family)),
        ),
{
    registry.register(Box::new(family.inner.clone()))
}

/// Calls `prometheus::Registry::register` with a handle to the gauge vector, with the same
/// outcome as for a counter vector.
#[verifier::external_body]
pub(crate) fn register_gauges(registry: &mut prometheus::Registry, family: &GaugeFamily) -> (done:
    Result<(), prometheus::Error>)
    requires
        holds_vectors_only(*old(registry)),
    ensures
        holds_vectors_only(*final(registry)),
        done is Ok <==> !registered_ids(*old(registry)).contains(
            descriptor_id(gauge_name(*family)),
        ),
        done is Ok ==> registered(*final(registry)) == registered(*old(registry)).push(
            gauge_identity(*family),
        ),
        done is Ok ==> registered_ids(*final(registry)) == registered_ids(*old(registry)).insert(
            descriptor_id(gauge_name(*family)),
        ),
{
    registry.register(Box::new(family.inner.clone()))
}

/// Calls `prometheus::Registry::register` with a handle to the histogram vector, with the
/// same outcome as for a counter vector.
#[verifier::external_body]
pub(crate) fn register_histograms(
    registry: &mut prometheus::Registry,
    family: &HistogramFamily,
) -> (done: Result<(), prometheus::Error>)
    requires
        holds_vectors_only(*old(registry)),
    ensures
        holds_vectors_only(*final(registry)),
        done is Ok <==> !registered_ids(*old(registry)).contains(
            descriptor_id(histogram_name(*family)),
        ),
        done is Ok ==> registered(*final(registry)) == registered(*old(registry)).push(
            histogram_identity(*family),
        ),
        done is Ok ==> registered_ids(*final(registry)) == registered_ids(*old(registry)).insert(
            descriptor_id(histogram_name(*family)),
        ),
{
    registry.register(Box::new(family.inner.clone()))
}

/// Calls `prometheus::Registry::gather` on a registry that holds these three vectors and
/// nothing else: a snapshot of every vector that has a series, sorted by name, its series
/// sorted by their label values. The registry reads the vectors through its own handles, so
/// the snapshot goes by the registry and by the vectors as they stand: the contract names it.
/// Each family of the snapshot has the kind of its vector.
#[verifier::external_body]
pub(crate) fn gather(
    registry: &prometheus::Registry,
    counters: &CounterFamily,
    histograms: &HistogramFamily,
    gauges: &GaugeFamily,
) -> (families: Vec<prometheus::proto::MetricFamily>)
    requires
        holds_vectors_only(*registry),
        registered(*registry) == seq![
            counter_identity(*counters),
            histogram_identity(*histograms),
            gauge_identity(*gauges),
        ],
    ensures
        families@ == gathered(*registry, *counters, *histograms, *gauges),
        are_typed(families@),
{
    registry.gather()
}

/// Calls `prometheus::TextEncoder::encode` on a fresh buffer, and hands the buffer out only
/// if the encoder succeeded. The encoder reads nothing but the families it is given and
/// writes into memory, so its text, or its failure, goes by the families alone: the contract
/// names it, and the message of its failure, and states no more of them. The encoder panics
/// on a family of the untyped kind: the `requires` rules that out.
#[verifier::external_body]
pub(crate) fn encode_text(families: &Vec<prometheus::proto::MetricFamily>) -> (encoded: Result<
    Vec<u8>,
    prometheus::Error,
>)
    requires
        are_typed(families@),
    ensures
        encoded matches Ok(text) ==> encoded_text(families@) == Some(text@),
        encoded is Err ==> encoded_text(families@) is None,
        encoded matches Err(error) ==> message_of(error) == encoding_failure(families@),
{
    let mut buffer = Vec::new();
    prometheus::Encoder::encode(&prometheus::TextEncoder::new(), families, &mut buffer).map(
        |_| buffer,
    )
}

/// Calls `to_string` on an error of the `prometheus` crate: its message, which goes by the
/// error alone. The contract names it and states no more of it.
#[verifier::external_body]
pub(crate) fn error_message(error: &prometheus::Error) -> (text: String)
    ensures
        text@ == message_of(*error),
{
    error.to_string()
}

} // verus!
