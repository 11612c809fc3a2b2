//! The counters, gauges and histogram that the relay exposes, kept in a
//! `prometheus` registry.

use vstd::prelude::*;

use crate::actors::base::health::HealthStatus;
use crate::platform::{decimal_text, int_to_string};
use crate::utils::circuit_breaker::CircuitState;

verus! {

// ---------------------------------------------------------------------------
// What is taken on trust of the `prometheus` crate
// ---------------------------------------------------------------------------

/// `prometheus::Registry`, of which nothing is known but what
/// [`registry_families`] names.
#[verifier::external_type_specification]
#[verifier::external_body]
pub struct ExRegistry(prometheus::Registry);

/// `prometheus::Error`, of which nothing is known.
#[verifier::external_type_specification]
#[verifier::external_body]
pub struct ExPrometheusError(prometheus::Error);

/// An integer counter: a `prometheus::IntCounter`.
#[verifier::external_body]
pub struct Counter {
    inner: prometheus::IntCounter,
}

/// An integer gauge: a `prometheus::IntGauge`.
#[verifier::external_body]
pub struct Gauge {
    inner: prometheus::IntGauge,
}

/// A family of integer counters that share a name and differ in their label
/// values: a `prometheus::IntCounterVec`.
#[verifier::external_body]
pub struct CounterFamily {
    inner: prometheus::IntCounterVec,
}

/// A family of histograms that share a name and differ in their label
/// values: a `prometheus::HistogramVec`.
#[verifier::external_body]
pub struct HistogramFamily {
    inner: prometheus::HistogramVec,
}

/// The names of the metric families that are registered with a registry.
pub uninterp spec fn registry_families(registry: prometheus::Registry) -> Set<Seq<char>>;

/// Whether a registry holds nothing but collectors of a single metric
/// family each, none with constant labels: a new registry does, and it stays
/// so under the registrations made here.
pub uninterp spec fn registry_is_plain(registry: prometheus::Registry) -> bool;

/// The name that a counter family was made with.
pub uninterp spec fn counter_family_name(family: CounterFamily) -> Seq<char>;

/// The label names that a counter family was made with, in order.
pub uninterp spec fn counter_family_label_names(family: CounterFamily) -> Seq<Seq<char>>;

/// The value of the counter that a family keeps for the given label values.
pub uninterp spec fn counter_family_count(family: CounterFamily, values: Seq<Seq<char>>) -> nat;

/// The name that a counter was made with.
pub uninterp spec fn int_counter_name(counter: Counter) -> Seq<char>;

/// The value of a counter.
pub uninterp spec fn int_counter_value(counter: Counter) -> nat;

/// The name that a gauge was made with.
pub uninterp spec fn int_gauge_name(gauge: Gauge) -> Seq<char>;

/// The value of a gauge.
pub uninterp spec fn int_gauge_value(gauge: Gauge) -> int;

/// The name that a histogram family was made with.
pub uninterp spec fn histogram_family_name(family: HistogramFamily) -> Seq<char>;

/// The label names that a histogram family was made with, in order.
pub uninterp spec fn histogram_family_label_names(family: HistogramFamily) -> Seq<Seq<char>>;

/// The upper bounds of the buckets that a histogram family was configured
/// with, in milliseconds, as they were handed over: not what a histogram of
/// the family then counts by.
pub uninterp spec fn histogram_family_bounds_ms(family: HistogramFamily) -> Seq<u64>;

/// Whether a plain registry that holds families of the names `held` takes
/// a family of the name `name`. A registry tells names apart by a hash of
/// theirs, so this is not simply that `held` lacks `name`.
pub uninterp spec fn name_is_free(held: Set<Seq<char>>, name: Seq<char>) -> bool;

/// Whether `c` may start an identifier: a letter of ASCII or an underscore,
/// and a colon where `colon` allows it.
pub open spec fn starts_identifier(c: char, colon: bool) -> bool {
    ('a' <= c && c <= 'z') || ('A' <= c && c <= 'Z') || c == '_' || (colon && c == ':')
}

/// Whether `text` is an identifier: it is not empty, starts with a letter,
/// an underscore or, where `colon` allows it, a colon, and goes on with
/// these and digits.
pub open spec fn is_identifier(text: Seq<char>, colon: bool) -> bool {
    &&& text.len() > 0
    &&& starts_identifier(text[0], colon)
    &&& forall|i: int|
        0 < i < text.len() ==> starts_identifier(#[trigger] text[i], colon) || ('0' <= text[i]
            && text[i] <= '9')
}

/// Whether a metric can be described by this name, help text and label
/// names: the help text is not empty, the name is an identifier that may
/// hold colons, and the label names are identifiers without colons, no two
/// of them the same.
pub open spec fn describable(name: Seq<char>, help: Seq<char>, label_names: Seq<Seq<char>>) -> bool {
    &&& help.len() > 0
    &&& is_identifier(name, true)
    &&& forall|i: int|
        0 <= i < label_names.len() ==> is_identifier(#[trigger] label_names[i], false)
    &&& label_names.no_duplicates()
}

/// The longest bucket bound that a histogram family is made with, in
/// milliseconds: bounds up to here stay apart when they are handed over in
/// seconds.
pub const MAX_BUCKET_BOUND_MS: u64 = 0x100_0000_0000;

/// The texts of a sequence of string slices.
pub open spec fn texts(values: Seq<&str>) -> Seq<Seq<char>> {
    values.map_values(|s: &str| s@)
}

/// A counter's value after one more increment: it wraps at `u64::MAX`.
pub open spec fn incremented(value: nat) -> nat {
    if value >= u64::MAX {
        0
    } else {
        value + 1
    }
}

/// `prometheus::Registry::new`: a registry that holds no collector.
#[verifier::external_body]
fn registry_new() -> (registry: prometheus::Registry)
    ensures
        registry_families(registry) == Set::<Seq<char>>::empty(),
        registry_is_plain(registry),
{
    prometheus::Registry::new()
}

/// `prometheus::IntCounterVec::new` on `prometheus::Opts::new(name, help)`:
/// it succeeds exactly where the name, the help text and the label names
/// describe a metric, and the family then carries that name and those label
/// names.
#[verifier::external_body]
fn counter_family_new(name: &str, help: &str, label_names: &Vec<&str>) -> (r: Result<
    CounterFamily,
    prometheus::Error,
>)
    ensures
        r is Ok <==> describable(name@, help@, texts(label_names@)),
        r matches Ok(family) ==> counter_family_name(family) == name@ && counter_family_label_names(
            family,
        ) == texts(label_names@),
{
    let inner = prometheus::IntCounterVec::new(prometheus::Opts::new(name, help), label_names)?;
    Ok(CounterFamily { inner })
}

/// `prometheus::IntCounter::new`: it succeeds exactly where the name and
/// the help text describe a metric without labels, and the counter then
/// carries that name.
#[verifier::external_body]
fn int_counter_new(name: &str, help: &str) -> (r: Result<Counter, prometheus::Error>)
    ensures
        r is Ok <==> describable(name@, help@, Seq::<Seq<char>>::empty()),
        r matches Ok(counter) ==> int_counter_name(counter) == name@,
{
    let inner = prometheus::IntCounter::new(name, help)?;
    Ok(Counter { inner })
}

/// `prometheus::IntGauge::new`: it succeeds exactly where the name and the
/// help text describe a metric without labels, and the gauge then carries
/// that name.
#[verifier::external_body]
fn int_gauge_new(name: &str, help: &str) -> (r: Result<Gauge, prometheus::Error>)
    ensures
        r is Ok <==> describable(name@, help@, Seq::<Seq<char>>::empty()),
        r matches Ok(gauge) ==> int_gauge_name(gauge) == name@,
{
    let inner = prometheus::IntGauge::new(name, help)?;
    Ok(Gauge { inner })
}

/// `prometheus::HistogramVec::new` on `prometheus::HistogramOpts::new(name,
/// help)` with the given bucket bounds, each handed over in seconds. It
/// succeeds exactly where the name, the help text and the label names
/// describe a metric: the bounds are not looked at here. The family then
/// carries that name and those label names, and is configured with those
/// bounds. There is at least one bound, or the family would fall back on
/// bounds of its own, and none is so long that two of them could be handed
/// over as the same number of seconds.
#[verifier::external_body]
fn histogram_family_new(
    name: &str,
    help: &str,
    bucket_bounds_ms: &Vec<u64>,
    label_names: &Vec<&str>,
) -> (r: Result<HistogramFamily, prometheus::Error>)
    requires
        bucket_bounds_ms@.len() > 0,
        forall|i: int|
            0 <= i < bucket_bounds_ms@.len() ==> #[trigger] bucket_bounds_ms@[i]
                <= MAX_BUCKET_BOUND_MS,
    ensures
        r is Ok <==> describable(name@, help@, texts(label_names@)),
        r matches Ok(family) ==> histogram_family_name(family) == name@
            && histogram_family_label_names(family) == texts(label_names@)
            && histogram_family_bounds_ms(family) == bucket_bounds_ms@,
{
    let seconds =
        bucket_bounds_ms.iter().map(|ms| std::time::Duration::from_millis(*ms).as_secs_f64()).collect();
    let opts = prometheus::HistogramOpts::new(name, help).buckets(seconds);
    let inner = prometheus::HistogramVec::new(opts, label_names)?;
    Ok(HistogramFamily { inner })
}

/// `prometheus::Registry::register` on a copy of a counter family, with a
/// plain registry, which stays plain. Whether it succeeds is decided by the
/// names that the registry holds and the family's name. Where it succeeds
/// the registry holds the family's name as well, and where it fails the
/// registry holds what it held.
#[verifier::external_body]
fn register_counter_family(registry: &mut prometheus::Registry, family: &CounterFamily) -> (r:
    Result<(), prometheus::Error>)
    requires
        registry_is_plain(*old(registry)),
    ensures
        registry_is_plain(*final(registry)),
        r is Ok <==> name_is_free(registry_families(*old(registry)), counter_family_name(*family)),
        r is Ok ==> registry_families(*final(registry)) == registry_families(*old(registry)).insert(
            counter_family_name(*family),
        ),
        r is Err ==> registry_families(*final(registry)) == registry_families(*old(registry)),
{
    registry.register(Box::new(family.inner.clone()))
}

/// `prometheus::Registry::register` on a copy of a counter, as for a family.
#[verifier::external_body]
fn register_int_counter(registry: &mut prometheus::Registry, counter: &Counter) -> (r:
    Result<(), prometheus::Error>)
    requires
        registry_is_plain(*old(registry)),
    ensures
        registry_is_plain(*final(registry)),
        r is Ok <==> name_is_free(registry_families(*old(registry)), int_counter_name(*counter)),
        r is Ok ==> registry_families(*final(registry)) == registry_families(*old(registry)).insert(
            int_counter_name(*counter),
        ),
        r is Err ==> registry_families(*final(registry)) == registry_families(*old(registry)),
{
    registry.register(Box::new(counter.inner.clone()))
}

/// `prometheus::Registry::register` on a copy of a gauge, as for a family.
#[verifier::external_body]
fn register_int_gauge(registry: &mut prometheus::Registry, gauge: &Gauge) -> (r:
    Result<(), prometheus::Error>)
    requires
        registry_is_plain(*old(registry)),
    ensures
        registry_is_plain(*final(registry)),
        r is Ok <==> name_is_free(registry_families(*old(registry)), int_gauge_name(*gauge)),
        r is Ok ==> registry_families(*final(registry)) == registry_families(*old(registry)).insert(
            int_gauge_name(*gauge),
        ),
        r is Err ==> registry_families(*final(registry)) == registry_families(*old(registry)),
{
    registry.register(Box::new(gauge.inner.clone()))
}

/// `prometheus::Registry::register` on a copy of a histogram family, as for
/// a counter family.
#[verifier::external_body]
fn register_histogram_family(registry: &mut prometheus::Registry, family: &HistogramFamily) -> (r:
    Result<(), prometheus::Error>)
    requires
        registry_is_plain(*old(registry)),
    ensures
        registry_is_plain(*final(registry)),
        r is Ok <==> name_is_free(registry_families(*old(registry)), histogram_family_name(*family)),
        r is Ok ==> registry_families(*final(registry)) == registry_families(*old(registry)).insert(
            histogram_family_name(*family),
        ),
        r is Err ==> registry_families(*final(registry)) == registry_families(*old(registry)),
{
    registry.register(Box::new(family.inner.clone()))
}

/// `get_metric_with_label_values` of `prometheus::IntCounterVec`, then `inc`
/// on the counter found. The lookup succeeds exactly when there are as many
/// values as the family has label names; the counter for these values is
/// then one higher, and the family keeps its name and label names.
#[verifier::external_body]
fn counter_family_inc(family: &mut CounterFamily, values: &Vec<&str>) -> (r: Result<
    (),
    prometheus::Error,
>)
    ensures
        r is Ok <==> values@.len() == counter_family_label_names(*old(family)).len(),
        counter_family_name(*final(family)) == counter_family_name(*old(family)),
        counter_family_label_names(*final(family)) == counter_family_label_names(*old(family)),
        counter_family_count(*final(family), texts(values@)) == if r is Ok {
            incremented(counter_family_count(*old(family), texts(values@)))
        } else {
            counter_family_count(*old(family), texts(values@))
        },
{
    family.inner.get_metric_with_label_values(values).map(|counter| counter.inc())
}

/// `prometheus::IntCounter::inc`: the value is one higher, the name stays.
#[verifier::external_body]
fn int_counter_inc(counter: &mut Counter)
    ensures
        int_counter_name(*final(counter)) == int_counter_name(*old(counter)),
        int_counter_value(*final(counter)) == incremented(int_counter_value(*old(counter))),
{
    counter.inner.inc()
}

/// `prometheus::IntGauge::set`: the value is the one given, the name stays.
#[verifier::external_body]
fn int_gauge_set(gauge: &mut Gauge, value: i64)
    ensures
        int_gauge_name(*final(gauge)) == int_gauge_name(*old(gauge)),
        int_gauge_value(*final(gauge)) == value,
{
    gauge.inner.set(value)
}

/// `get_metric_with_label_values` of `prometheus::HistogramVec`, then
/// `observe` on the histogram found, with the duration handed over in
/// seconds. The family keeps its name, label names and bounds.
#[verifier::external_body]
fn histogram_family_observe(family: &mut HistogramFamily, values: &Vec<&str>, micros: u64) -> (r:
    Result<(), prometheus::Error>)
    ensures
        histogram_family_name(*final(family)) == histogram_family_name(*old(family)),
        histogram_family_label_names(*final(family)) == histogram_family_label_names(*old(family)),
        histogram_family_bounds_ms(*final(family)) == histogram_family_bounds_ms(*old(family)),
{
    let seconds = std::time::Duration::from_micros(micros).as_secs_f64();
    family.inner.get_metric_with_label_values(values).map(|histogram| histogram.observe(seconds))
}

/// The message of a `prometheus::Error`, as its `Display` writes it.
#[verifier::external_body]
fn error_message(error: &prometheus::Error) -> (message: String) {
    error.to_string()
}

// ---------------------------------------------------------------------------
// The metrics of this system
// ---------------------------------------------------------------------------

/// A metric could not be made or registered.
#[derive(Debug, Clone)]
pub struct MetricsError {
    pub message: String,
}

fn metrics_error(error: prometheus::Error) -> MetricsError {
    MetricsError { message: error_message(&error) }
}

/// What comes of an answer of prometheus: what the answer brought where it
/// is a success, and a failure with the error's message where it is not.
pub fn from_prometheus<T>(answer: Result<T, prometheus::Error>) -> (r: Result<T, MetricsError>)
    ensures
        match answer {
            Ok(brought) => r == Ok::<T, MetricsError>(brought),
            Err(_) => r is Err,
        },
{
    match answer {
        Ok(brought) => Ok(brought),
        Err(e) => Err(metrics_error(e)),
    }
}

/// The upper bounds of the buckets of the duration histogram, in
/// milliseconds: from one millisecond to five seconds.
pub open spec fn duration_bounds_ms() -> Seq<u64> {
    seq![1, 5, 10, 50, 100, 500, 1000, 5000]
}

/// The names of all the metric families of this system.
pub open spec fn family_names() -> Set<Seq<char>> {
    set![
        "cdc_events_processed_total"@,
        "cdc_events_failed_total"@,
        "cdc_processing_duration_seconds"@,
        "retry_attempts_total"@,
        "retry_success_total"@,
        "retry_failure_total"@,
        "dlq_messages_total"@,
        "dlq_messages_by_event_type"@,
        "circuit_breaker_state"@,
        "circuit_breaker_transitions_total"@,
        "actor_health_status"@,
        "actor_messages_sent_total"@,
        "actor_messages_received_total"@,
    ]
}

/// The name, the help text and the label names of a metric family.
pub ghost struct FamilyText {
    pub name: Seq<char>,
    pub help: Seq<char>,
    pub label_names: Seq<Seq<char>>,
}

/// How many metric families this system has.
pub open spec fn family_count() -> nat {
    13
}

/// The metric families of this system, in the order in which they are made
/// and registered, counted from 0.
pub open spec fn family(k: nat) -> FamilyText {
    if k == 0 {
        FamilyText {
            name: "cdc_events_processed_total"@,
            help: "Total CDC events processed"@,
            label_names: seq!["event_type"@],
        }
    } else if k == 1 {
        FamilyText {
            name: "cdc_events_failed_total"@,
            help: "Total CDC events that failed processing"@,
            label_names: seq!["event_type"@, "reason"@],
        }
    } else if k == 2 {
        FamilyText {
            name: "cdc_processing_duration_seconds"@,
            help: "CDC event processing duration"@,
            label_names: seq!["event_type"@],
        }
    } else if k == 3 {
        FamilyText {
            name: "retry_attempts_total"@,
            help: "Total retry attempts"@,
            label_names: seq!["operation"@, "attempt"@],
        }
    } else if k == 4 {
        FamilyText {
            name: "retry_success_total"@,
            help: "Total successful retries"@,
            label_names: seq!["operation"@],
        }
    } else if k == 5 {
        FamilyText {
            name: "retry_failure_total"@,
            help: "Total failed retries after all attempts"@,
            label_names: seq!["operation"@],
        }
    } else if k == 6 {
        FamilyText {
            name: "dlq_messages_total"@,
            help: "Total messages in dead letter queue"@,
            label_names: Seq::<Seq<char>>::empty(),
        }
    } else if k == 7 {
        FamilyText {
            name: "dlq_messages_by_event_type"@,
            help: "DLQ messages by event type"@,
            label_names: seq!["event_type"@],
        }
    } else if k == 8 {
        FamilyText {
            name: "circuit_breaker_state"@,
            help: "Circuit breaker state (0=Closed, 1=Open, 2=HalfOpen)"@,
            label_names: Seq::<Seq<char>>::empty(),
        }
    } else if k == 9 {
        FamilyText {
            name: "circuit_breaker_transitions_total"@,
            help: "Circuit breaker state transitions"@,
            label_names: seq!["from_state"@, "to_state"@],
        }
    } else if k == 10 {
        FamilyText {
            name: "actor_health_status"@,
            help: "Actor health status (0=Unhealthy, 1=Degraded, 2=Healthy)"@,
            label_names: Seq::<Seq<char>>::empty(),
        }
    } else if k == 11 {
        FamilyText {
            name: "actor_messages_sent_total"@,
            help: "Total messages sent by actors"@,
            label_names: seq!["actor"@, "message_type"@],
        }
    } else {
        FamilyText {
            name: "actor_messages_received_total"@,
            help: "Total messages received by actors"@,
            label_names: seq!["actor"@, "message_type"@],
        }
    }
}

/// The names that the registry holds when family `k` is registered: those
/// of the families before it.
pub open spec fn held_before(k: nat) -> Set<Seq<char>>
    decreases k,
{
    if k == 0 {
        Set::empty()
    } else {
        held_before((k - 1) as nat).insert(family((k - 1) as nat).name)
    }
}

/// Whether a registry that holds the families before family `k` takes the
/// name of family `k`.
pub open spec fn fits(k: nat) -> bool {
    name_is_free(held_before(k), family(k).name)
}

/// Whether every family of this system is taken by a registry that holds
/// the families before it.
pub open spec fn all_fit() -> bool {
    forall|k: nat| k < family_count() ==> #[trigger] fits(k)
}

/// Every family of this system can be made: its help text is not empty,
/// its name is an identifier, and its label names are identifiers that
/// differ.
pub proof fn law_every_family_is_describable(k: nat)
    requires
        k < family_count(),
    ensures
        describable(family(k).name, family(k).help, family(k).label_names),
{
    let labels = family(k).label_names;
    if k == 0 {
        reveal_strlit("cdc_events_processed_total");
        reveal_strlit("Total CDC events processed");
        reveal_strlit("event_type");
        assert(is_identifier("cdc_events_processed_total"@, true));
        assert(is_identifier(labels[0], false));
    } else if k == 1 {
        reveal_strlit("cdc_events_failed_total");
        reveal_strlit("Total CDC events that failed processing");
        reveal_strlit("event_type");
        reveal_strlit("reason");
        assert(is_identifier("cdc_events_failed_total"@, true));
        assert(is_identifier(labels[0], false));
        assert(is_identifier(labels[1], false));
        assert(labels[0] != labels[1]);
    } else if k == 2 {
        reveal_strlit("cdc_processing_duration_seconds");
        reveal_strlit("CDC event processing duration");
        reveal_strlit("event_type");
        assert(is_identifier("cdc_processing_duration_seconds"@, true));
        assert(is_identifier(labels[0], false));
    } else if k == 3 {
        reveal_strlit("retry_attempts_total");
        reveal_strlit("Total retry attempts");
        reveal_strlit("operation");
        reveal_strlit("attempt");
        assert(is_identifier("retry_attempts_total"@, true));
        assert(is_identifier(labels[0], false));
        assert(is_identifier(labels[1], false));
        assert(labels[0] != labels[1]);
    } else if k == 4 {
        reveal_strlit("retry_success_total");
        reveal_strlit("Total successful retries");
        reveal_strlit("operation");
        assert(is_identifier("retry_success_total"@, true));
        assert(is_identifier(labels[0], false));
    } else if k == 5 {
        reveal_strlit("retry_failure_total");
        reveal_strlit("Total failed retries after all attempts");
        reveal_strlit("operation");
        assert(is_identifier("retry_failure_total"@, true));
        assert(is_identifier(labels[0], false));
    } else if k == 6 {
        reveal_strlit("dlq_messages_total");
        reveal_strlit("Total messages in dead letter queue");
        assert(is_identifier("dlq_messages_total"@, true));
    } else if k == 7 {
        reveal_strlit("dlq_messages_by_event_type");
        reveal_strlit("DLQ messages by event type");
        reveal_strlit("event_type");
        assert(is_identifier("dlq_messages_by_event_type"@, true));
        assert(is_identifier(labels[0], false));
    } else if k == 8 {
        reveal_strlit("circuit_breaker_state");
        reveal_strlit("Circuit breaker state (0=Closed, 1=Open, 2=HalfOpen)");
        assert(is_identifier("circuit_breaker_state"@, true));
    } else if k == 9 {
        reveal_strlit("circuit_breaker_transitions_total");
        reveal_strlit("Circuit breaker state transitions");
        reveal_strlit("from_state");
        reveal_strlit("to_state");
        assert(is_identifier("circuit_breaker_transitions_total"@, true));
        assert(is_identifier(labels[0], false));
        assert(is_identifier(labels[1], false));
        assert(labels[0] != labels[1]);
    } else if k == 10 {
        reveal_strlit("actor_health_status");
        reveal_strlit("Actor health status (0=Unhealthy, 1=Degraded, 2=Healthy)");
        assert(is_identifier("actor_health_status"@, true));
    } else if k == 11 {
        reveal_strlit("actor_messages_sent_total");
        reveal_strlit("Total messages sent by actors");
        reveal_strlit("actor");
        reveal_strlit("message_type");
        assert(is_identifier("actor_messages_sent_total"@, true));
        assert(is_identifier(labels[0], false));
        assert(is_identifier(labels[1], false));
        assert(labels[0] != labels[1]);
    } else {
        reveal_strlit("actor_messages_received_total");
        reveal_strlit("Total messages received by actors");
        reveal_strlit("actor");
        reveal_strlit("message_type");
        assert(is_identifier("actor_messages_received_total"@, true));
        assert(is_identifier(labels[0], false));
        assert(is_identifier(labels[1], false));
        assert(labels[0] != labels[1]);
    }
}

/// Whether a counter family has the given name and label names.
pub open spec fn is_family(family: CounterFamily, name: Seq<char>, label_names: Seq<Seq<char>>) -> bool {
    counter_family_name(family) == name && counter_family_label_names(family) == label_names
}

/// Whether a registry that holds the families `held` gets one more, of
/// this name, help text and label names: the three describe a metric, and
/// the registry takes the name.
pub open spec fn takes(
    held: Set<Seq<char>>,
    name: Seq<char>,
    help: Seq<char>,
    label_names: Seq<Seq<char>>,
) -> bool {
    describable(name, help, label_names) && name_is_free(held, name)
}

/// Makes a counter family and registers it.
fn registered_counter_family(
    registry: &mut prometheus::Registry,
    name: &str,
    help: &str,
    label_names: &Vec<&str>,
) -> (r: Result<CounterFamily, MetricsError>)
    requires
        registry_is_plain(*old(registry)),
    ensures
        registry_is_plain(*final(registry)),
        r is Ok <==> takes(registry_families(*old(registry)), name@, help@, texts(label_names@)),
        match r {
            Ok(family) => is_family(family, name@, texts(label_names@)) && registry_families(
                *final(registry),
            ) == registry_families(*old(registry)).insert(name@),
            Err(_) => registry_families(*final(registry)) == registry_families(*old(registry)),
        },
{
    let family = from_prometheus(counter_family_new(name, help, label_names))?;
    from_prometheus(register_counter_family(registry, &family))?;
    Ok(family)
}

/// Makes a counter and registers it.
fn registered_counter(registry: &mut prometheus::Registry, name: &str, help: &str) -> (r: Result<
    Counter,
    MetricsError,
>)
    requires
        registry_is_plain(*old(registry)),
    ensures
        registry_is_plain(*final(registry)),
        r is Ok <==> takes(
            registry_families(*old(registry)),
            name@,
            help@,
            Seq::<Seq<char>>::empty(),
        ),
        match r {
            Ok(counter) => int_counter_name(counter) == name@ && registry_families(*final(registry))
                == registry_families(*old(registry)).insert(name@),
            Err(_) => registry_families(*final(registry)) == registry_families(*old(registry)),
        },
{
    let counter = from_prometheus(int_counter_new(name, help))?;
    from_prometheus(register_int_counter(registry, &counter))?;
    Ok(counter)
}

/// Makes a gauge and registers it.
fn registered_gauge(registry: &mut prometheus::Registry, name: &str, help: &str) -> (r: Result<
    Gauge,
    MetricsError,
>)
    requires
        registry_is_plain(*old(registry)),
    ensures
        registry_is_plain(*final(registry)),
        r is Ok <==> takes(
            registry_families(*old(registry)),
            name@,
            help@,
            Seq::<Seq<char>>::empty(),
        ),
        match r {
            Ok(gauge) => int_gauge_name(gauge) == name@ && registry_families(*final(registry))
                == registry_families(*old(registry)).insert(name@),
            Err(_) => registry_families(*final(registry)) == registry_families(*old(registry)),
        },
{
    let gauge = from_prometheus(int_gauge_new(name, help))?;
    from_prometheus(register_int_gauge(registry, &gauge))?;
    Ok(gauge)
}

/// Makes a histogram family and registers it.
fn registered_histogram_family(
    registry: &mut prometheus::Registry,
    name: &str,
    help: &str,
    bucket_bounds_ms: &Vec<u64>,
    label_names: &Vec<&str>,
) -> (r: Result<HistogramFamily, MetricsError>)
    requires
        registry_is_plain(*old(registry)),
        bucket_bounds_ms@.len() > 0,
        forall|i: int|
            0 <= i < bucket_bounds_ms@.len() ==> #[trigger] bucket_bounds_ms@[i]
                <= MAX_BUCKET_BOUND_MS,
    ensures
        registry_is_plain(*final(registry)),
        r is Ok <==> takes(registry_families(*old(registry)), name@, help@, texts(label_names@)),
        match r {
            Ok(family) => histogram_family_name(family) == name@
                && histogram_family_label_names(family) == texts(label_names@)
                && histogram_family_bounds_ms(family) == bucket_bounds_ms@ && registry_families(
                *final(registry),
            ) == registry_families(*old(registry)).insert(name@),
            Err(_) => registry_families(*final(registry)) == registry_families(*old(registry)),
        },
{
    let family = from_prometheus(
        histogram_family_new(name, help, bucket_bounds_ms, label_names),
    )?;
    from_prometheus(register_histogram_family(registry, &family))?;
    Ok(family)
}

/// The number that stands for a circuit breaker's state on its gauge: 0 for
/// closed, 1 for open, 2 for half-open.
pub fn circuit_state_code(state: CircuitState) -> (code: u8)
    ensures
        code == match state {
            CircuitState::Closed => 0u8,
            CircuitState::Open => 1u8,
            CircuitState::HalfOpen => 2u8,
        },
{
    match state {
        CircuitState::Closed => 0,
        CircuitState::Open => 1,
        CircuitState::HalfOpen => 2,
    }
}

/// The name of a circuit breaker's state, as transitions are counted under
/// it.
pub open spec fn circuit_state_label(state: CircuitState) -> Seq<char> {
    match state {
        CircuitState::Closed => "Closed"@,
        CircuitState::Open => "Open"@,
        CircuitState::HalfOpen => "HalfOpen"@,
    }
}

/// The name of a circuit breaker's state, as text.
pub fn circuit_state_name(state: CircuitState) -> (name: &'static str)
    ensures
        name@ == circuit_state_label(state),
{
    match state {
        CircuitState::Closed => "Closed",
        CircuitState::Open => "Open",
        CircuitState::HalfOpen => "HalfOpen",
    }
}

/// The number that stands for a health status on its gauge: 0 for
/// unhealthy, 1 for degraded, 2 for healthy.
pub fn health_status_code(status: &HealthStatus) -> (code: u8)
    ensures
        code == match status {
            HealthStatus::Unhealthy(_) => 0u8,
            HealthStatus::Degraded(_) => 1u8,
            HealthStatus::Healthy => 2u8,
        },
{
    match status {
        HealthStatus::Unhealthy(_) => 0,
        HealthStatus::Degraded(_) => 1,
        HealthStatus::Healthy => 2,
    }
}

/// All the metrics of the system, and the registry that exposes them.
pub struct Metrics {
    pub registry: prometheus::Registry,
    pub cdc_events_processed: CounterFamily,
    pub cdc_events_failed: CounterFamily,
    pub cdc_processing_duration: HistogramFamily,
    pub retry_attempts_total: CounterFamily,
    pub retry_success: CounterFamily,
    pub retry_failure: CounterFamily,
    pub dlq_messages_total: Counter,
    pub dlq_messages_by_event_type: CounterFamily,
    pub circuit_breaker_state: Gauge,
    pub circuit_breaker_transitions: CounterFamily,
    pub actor_health_status: Gauge,
    pub messages_sent: CounterFamily,
    pub messages_received: CounterFamily,
}

impl Metrics {
    /// Every metric carries the name and the label names under which it is
    /// scraped.
    pub open spec fn named(&self) -> bool {
        &&& is_family(self.cdc_events_processed, "cdc_events_processed_total"@, seq!["event_type"@])
        &&& is_family(
            self.cdc_events_failed,
            "cdc_events_failed_total"@,
            seq!["event_type"@, "reason"@],
        )
        &&& histogram_family_name(self.cdc_processing_duration)
            == "cdc_processing_duration_seconds"@
        &&& histogram_family_label_names(self.cdc_processing_duration) == seq!["event_type"@]
        &&& histogram_family_bounds_ms(self.cdc_processing_duration) == duration_bounds_ms()
        &&& is_family(
            self.retry_attempts_total,
            "retry_attempts_total"@,
            seq!["operation"@, "attempt"@],
        )
        &&& is_family(self.retry_success, "retry_success_total"@, seq!["operation"@])
        &&& is_family(self.retry_failure, "retry_failure_total"@, seq!["operation"@])
        &&& int_counter_name(self.dlq_messages_total) == "dlq_messages_total"@
        &&& is_family(
            self.dlq_messages_by_event_type,
            "dlq_messages_by_event_type"@,
            seq!["event_type"@],
        )
        &&& int_gauge_name(self.circuit_breaker_state) == "circuit_breaker_state"@
        &&& is_family(
            self.circuit_breaker_transitions,
            "circuit_breaker_transitions_total"@,
            seq!["from_state"@, "to_state"@],
        )
        &&& int_gauge_name(self.actor_health_status) == "actor_health_status"@
        &&& is_family(
            self.messages_sent,
            "actor_messages_sent_total"@,
            seq!["actor"@, "message_type"@],
        )
        &&& is_family(
            self.messages_received,
            "actor_messages_received_total"@,
            seq!["actor"@, "message_type"@],
        )
    }

    /// The names of the families that the registry exposes.
    pub open spec fn exposed(&self) -> Set<Seq<char>> {
        registry_families(self.registry)
    }

    /// Makes every metric and registers it with a new registry.
    ///
    /// Every family can be made, so that succeeds exactly where the
    /// registry takes every family's name, one after the other. The registry
    /// then exposes exactly the families of [`family_names`], each under its
    /// name and label names.
    pub fn new() -> (r: Result<Metrics, MetricsError>)
        ensures
            r is Ok <==> all_fit(),
            r matches Ok(metrics) ==> metrics.named() && metrics.exposed() == family_names(),
    {
        let mut registry = registry_new();
        let by_event_type: Vec<&str> = vec!["event_type"];
        let by_event_type_and_reason: Vec<&str> = vec!["event_type", "reason"];
        let by_operation: Vec<&str> = vec!["operation"];
        let by_operation_and_attempt: Vec<&str> = vec!["operation", "attempt"];
        let by_transition: Vec<&str> = vec!["from_state", "to_state"];
        let by_actor_and_message: Vec<&str> = vec!["actor", "message_type"];
        let bucket_bounds_ms: Vec<u64> = vec![1, 5, 10, 50, 100, 500, 1000, 5000];
        proof {
            assert(texts(by_event_type@) =~= seq!["event_type"@]);
            assert(texts(by_event_type_and_reason@) =~= seq!["event_type"@, "reason"@]);
            assert(texts(by_operation@) =~= seq!["operation"@]);
            assert(texts(by_operation_and_attempt@) =~= seq!["operation"@, "attempt"@]);
            assert(texts(by_transition@) =~= seq!["from_state"@, "to_state"@]);
            assert(texts(by_actor_and_message@) =~= seq!["actor"@, "message_type"@]);
            assert(bucket_bounds_ms@ =~= duration_bounds_ms());
            assert(registry_families(registry) == held_before(0));
        }

        proof {
            law_every_family_is_describable(0);
        }
        assert(fits(0) <==> takes(
            registry_families(registry),
            "cdc_events_processed_total"@,
            "Total CDC events processed"@,
            texts(by_event_type@),
        ));
        let cdc_events_processed = registered_counter_family(
            &mut registry,
            "cdc_events_processed_total",
            "Total CDC events processed",
            &by_event_type,
        )?;
        assert(registry_families(registry) == held_before(1));
        proof {
            law_every_family_is_describable(1);
        }
        assert(fits(1) <==> takes(
            registry_families(registry),
            "cdc_events_failed_total"@,
            "Total CDC events that failed processing"@,
            texts(by_event_type_and_reason@),
        ));
        let cdc_events_failed = registered_counter_family(
            &mut registry,
            "cdc_events_failed_total",
            "Total CDC events that failed processing",
            &by_event_type_and_reason,
        )?;
        assert(registry_families(registry) == held_before(2));
        proof {
            law_every_family_is_describable(2);
        }
        assert(fits(2) <==> takes(
            registry_families(registry),
            "cdc_processing_duration_seconds"@,
            "CDC event processing duration"@,
            texts(by_event_type@),
        ));
        let cdc_processing_duration = registered_histogram_family(
            &mut registry,
            "cdc_processing_duration_seconds",
            "CDC event processing duration",
            &bucket_bounds_ms,
            &by_event_type,
        )?;
        assert(registry_families(registry) == held_before(3));
        proof {
            law_every_family_is_describable(3);
        }
        assert(fits(3) <==> takes(
            registry_families(registry),
            "retry_attempts_total"@,
            "Total retry attempts"@,
            texts(by_operation_and_attempt@),
        ));
        let retry_attempts_total = registered_counter_family(
            &mut registry,
            "retry_attempts_total",
            "Total retry attempts",
            &by_operation_and_attempt,
        )?;
        assert(registry_families(registry) == held_before(4));
        proof {
            law_every_family_is_describable(4);
        }
        assert(fits(4) <==> takes(
            registry_families(registry),
            "retry_success_total"@,
            "Total successful retries"@,
            texts(by_operation@),
        ));
        let retry_success = registered_counter_family(
            &mut registry,
            "retry_success_total",
            "Total successful retries",
            &by_operation,
        )?;
        assert(registry_families(registry) == held_before(5));
        proof {
            law_every_family_is_describable(5);
        }
        assert(fits(5) <==> takes(
            registry_families(registry),
            "retry_failure_total"@,
            "Total failed retries after all attempts"@,
            texts(by_operation@),
        ));
        let retry_failure = registered_counter_family(
            &mut registry,
            "retry_failure_total",
            "Total failed retries after all attempts",
            &by_operation,
        )?;
        assert(registry_families(registry) == held_before(6));
        proof {
            law_every_family_is_describable(6);
        }
        assert(fits(6) <==> takes(
            registry_families(registry),
            "dlq_messages_total"@,
            "Total messages in dead letter queue"@,
            Seq::<Seq<char>>::empty(),
        ));
        let dlq_messages_total = registered_counter(
            &mut registry,
            "dlq_messages_total",
            "Total messages in dead letter queue",
        )?;
        assert(registry_families(registry) == held_before(7));
        proof {
            law_every_family_is_describable(7);
        }
        assert(fits(7) <==> takes(
            registry_families(registry),
            "dlq_messages_by_event_type"@,
            "DLQ messages by event type"@,
            texts(by_event_type@),
        ));
        let dlq_messages_by_event_type = registered_counter_family(
            &mut registry,
            "dlq_messages_by_event_type",
            "DLQ messages by event type",
            &by_event_type,
        )?;
        assert(registry_families(registry) == held_before(8));
        proof {
            law_every_family_is_describable(8);
        }
        assert(fits(8) <==> takes(
            registry_families(registry),
            "circuit_breaker_state"@,
            "Circuit breaker state (0=Closed, 1=Open, 2=HalfOpen)"@,
            Seq::<Seq<char>>::empty(),
        ));
        let circuit_breaker_state = registered_gauge(
            &mut registry,
            "circuit_breaker_state",
            "Circuit breaker state (0=Closed, 1=Open, 2=HalfOpen)",
        )?;
        assert(registry_families(registry) == held_before(9));
        proof {
            law_every_family_is_describable(9);
        }
        assert(fits(9) <==> takes(
            registry_families(registry),
            "circuit_breaker_transitions_total"@,
            "Circuit breaker state transitions"@,
            texts(by_transition@),
        ));
        let circuit_breaker_transitions = registered_counter_family(
            &mut registry,
            "circuit_breaker_transitions_total",
            "Circuit breaker state transitions",
            &by_transition,
        )?;
        assert(registry_families(registry) == held_before(10));
        proof {
            law_every_family_is_describable(10);
        }
        assert(fits(10) <==> takes(
            registry_families(registry),
            "actor_health_status"@,
            "Actor health status (0=Unhealthy, 1=Degraded, 2=Healthy)"@,
            Seq::<Seq<char>>::empty(),
        ));
        let actor_health_status = registered_gauge(
            &mut registry,
            "actor_health_status",
            "Actor health status (0=Unhealthy, 1=Degraded, 2=Healthy)",
        )?;
        assert(registry_families(registry) == held_before(11));
        proof {
            law_every_family_is_describable(11);
        }
        assert(fits(11) <==> takes(
            registry_families(registry),
            "actor_messages_sent_total"@,
            "Total messages sent by actors"@,
            texts(by_actor_and_message@),
        ));
        let messages_sent = registered_counter_family(
            &mut registry,
            "actor_messages_sent_total",
            "Total messages sent by actors",
            &by_actor_and_message,
        )?;
        assert(registry_families(registry) == held_before(12));
        proof {
            law_every_family_is_describable(12);
        }
        assert(fits(12) <==> takes(
            registry_families(registry),
            "actor_messages_received_total"@,
            "Total messages received by actors"@,
            texts(by_actor_and_message@),
        ));
        let messages_received = registered_counter_family(
            &mut registry,
            "actor_messages_received_total",
            "Total messages received by actors",
            &by_actor_and_message,
        )?;
        assert(registry_families(registry) == held_before(13));

        let metrics = Metrics {
            registry,
            cdc_events_processed,
            cdc_events_failed,
            cdc_processing_duration,
            retry_attempts_total,
            retry_success,
            retry_failure,
            dlq_messages_total,
            dlq_messages_by_event_type,
            circuit_breaker_state,
            circuit_breaker_transitions,
            actor_health_status,
            messages_sent,
            messages_received,
        };
        assert(metrics.exposed() =~= family_names());
        assert forall|k: nat| k < family_count() implies #[trigger] fits(k) by {
            assert(k == 0 || k == 1 || k == 2 || k == 3 || k == 4 || k == 5 || k == 6 || k == 7
                || k == 8 || k == 9 || k == 10 || k == 11 || k == 12);
        }
        Ok(metrics)
    }

    /// The registry, for the endpoint that exposes the metrics.
    pub fn registry(&self) -> (r: &prometheus::Registry)
        ensures
            registry_families(*r) == self.exposed(),
    {
        &self.registry
    }

    /// Counts one relayed event: under its type among the processed where
    /// `success`, and otherwise among the failed, under its type and the
    /// reason `processing_error`. The time it took, in microseconds, goes to
    /// the duration histogram under its type.
    pub fn record_cdc_event(&mut self, event_type: &str, duration_micros: u64, success: bool)
        requires
            old(self).named(),
        ensures
            final(self).named(),
            *final(self) == (Metrics {
                cdc_events_processed: final(self).cdc_events_processed,
                cdc_events_failed: final(self).cdc_events_failed,
                cdc_processing_duration: final(self).cdc_processing_duration,
                ..*old(self)
            }),
            success ==> final(self).cdc_events_failed == old(self).cdc_events_failed
                && counter_family_count(final(self).cdc_events_processed, seq![event_type@])
                == incremented(
                counter_family_count(old(self).cdc_events_processed, seq![event_type@]),
            ),
            !success ==> final(self).cdc_events_processed == old(self).cdc_events_processed
                && counter_family_count(
                final(self).cdc_events_failed,
                seq![event_type@, "processing_error"@],
            ) == incremented(
                counter_family_count(
                    old(self).cdc_events_failed,
                    seq![event_type@, "processing_error"@],
                ),
            ),
    {
        if success {
            let values: Vec<&str> = vec![event_type];
            assert(texts(values@) =~= seq![event_type@]);
            let _ = counter_family_inc(&mut self.cdc_events_processed, &values);
        } else {
            let values: Vec<&str> = vec![event_type, "processing_error"];
            assert(texts(values@) =~= seq![event_type@, "processing_error"@]);
            let _ = counter_family_inc(&mut self.cdc_events_failed, &values);
        }
        let values: Vec<&str> = vec![event_type];
        let _ = histogram_family_observe(&mut self.cdc_processing_duration, &values, duration_micros);
    }

    /// Counts one attempt of `operation`, under the operation and the
    /// attempt's number in decimal.
    pub fn record_retry_attempt(&mut self, operation: &str, attempt: u32)
        requires
            old(self).named(),
        ensures
            final(self).named(),
            *final(self) == (Metrics {
                retry_attempts_total: final(self).retry_attempts_total,
                ..*old(self)
            }),
            counter_family_count(
                final(self).retry_attempts_total,
                seq![operation@, decimal_text(attempt as int)],
            ) == incremented(
                counter_family_count(
                    old(self).retry_attempts_total,
                    seq![operation@, decimal_text(attempt as int)],
                ),
            ),
    {
        let number = int_to_string(attempt as i64);
        let values: Vec<&str> = vec![operation, number.as_str()];
        assert(texts(values@) =~= seq![operation@, decimal_text(attempt as int)]);
        let _ = counter_family_inc(&mut self.retry_attempts_total, &values);
    }

    /// Counts how a retried `operation` ended: among the successes where
    /// `success`, and otherwise among the failures.
    pub fn record_retry_outcome(&mut self, operation: &str, success: bool)
        requires
            old(self).named(),
        ensures
            final(self).named(),
            *final(self) == (Metrics {
                retry_success: final(self).retry_success,
                retry_failure: final(self).retry_failure,
                ..*old(self)
            }),
            success ==> final(self).retry_failure == old(self).retry_failure
                && counter_family_count(final(self).retry_success, seq![operation@]) == incremented(
                counter_family_count(old(self).retry_success, seq![operation@]),
            ),
            !success ==> final(self).retry_success == old(self).retry_success
                && counter_family_count(final(self).retry_failure, seq![operation@]) == incremented(
                counter_family_count(old(self).retry_failure, seq![operation@]),
            ),
    {
        let values: Vec<&str> = vec![operation];
        assert(texts(values@) =~= seq![operation@]);
        if success {
            let _ = counter_family_inc(&mut self.retry_success, &values);
        } else {
            let _ = counter_family_inc(&mut self.retry_failure, &values);
        }
    }

    /// Counts one dead-lettered message, in total and under its event type.
    pub fn record_dlq_message(&mut self, event_type: &str)
        requires
            old(self).named(),
        ensures
            final(self).named(),
            *final(self) == (Metrics {
                dlq_messages_total: final(self).dlq_messages_total,
                dlq_messages_by_event_type: final(self).dlq_messages_by_event_type,
                ..*old(self)
            }),
            int_counter_value(final(self).dlq_messages_total) == incremented(
                int_counter_value(old(self).dlq_messages_total),
            ),
            counter_family_count(final(self).dlq_messages_by_event_type, seq![event_type@])
                == incremented(
                counter_family_count(old(self).dlq_messages_by_event_type, seq![event_type@]),
            ),
    {
        int_counter_inc(&mut self.dlq_messages_total);
        let values: Vec<&str> = vec![event_type];
        assert(texts(values@) =~= seq![event_type@]);
        let _ = counter_family_inc(&mut self.dlq_messages_by_event_type, &values);
    }

    /// Sets the circuit breaker gauge to `state`: 0 for closed, 1 for open,
    /// 2 for half-open.
    pub fn update_circuit_breaker_state(&mut self, state: u8)
        requires
            old(self).named(),
        ensures
            final(self).named(),
            *final(self) == (Metrics {
                circuit_breaker_state: final(self).circuit_breaker_state,
                ..*old(self)
            }),
            int_gauge_value(final(self).circuit_breaker_state) == state,
    {
        int_gauge_set(&mut self.circuit_breaker_state, state as i64);
    }

    /// Counts one transition of the circuit breaker between two states.
    pub fn record_circuit_breaker_transition(&mut self, from_state: &str, to_state: &str)
        requires
            old(self).named(),
        ensures
            final(self).named(),
            *final(self) == (Metrics {
                circuit_breaker_transitions: final(self).circuit_breaker_transitions,
                ..*old(self)
            }),
            counter_family_count(
                final(self).circuit_breaker_transitions,
                seq![from_state@, to_state@],
            ) == incremented(
                counter_family_count(
                    old(self).circuit_breaker_transitions,
                    seq![from_state@, to_state@],
                ),
            ),
    {
        let values: Vec<&str> = vec![from_state, to_state];
        assert(texts(values@) =~= seq![from_state@, to_state@]);
        let _ = counter_family_inc(&mut self.circuit_breaker_transitions, &values);
    }

    /// Sets the health gauge to `status`: 0 for unhealthy, 1 for degraded,
    /// 2 for healthy.
    pub fn update_actor_health_status(&mut self, status: u8)
        requires
            old(self).named(),
        ensures
            final(self).named(),
            *final(self) == (Metrics {
                actor_health_status: final(self).actor_health_status,
                ..*old(self)
            }),
            int_gauge_value(final(self).actor_health_status) == status,
    {
        int_gauge_set(&mut self.actor_health_status, status as i64);
    }

    /// Counts one message that `actor` sent.
    pub fn record_message_sent(&mut self, actor: &str, message_type: &str)
        requires
            old(self).named(),
        ensures
            final(self).named(),
            *final(self) == (Metrics { messages_sent: final(self).messages_sent, ..*old(self) }),
            counter_family_count(final(self).messages_sent, seq![actor@, message_type@])
                == incremented(
                counter_family_count(old(self).messages_sent, seq![actor@, message_type@]),
            ),
    {
        let values: Vec<&str> = vec![actor, message_type];
        assert(texts(values@) =~= seq![actor@, message_type@]);
        let _ = counter_family_inc(&mut self.messages_sent, &values);
    }

    /// Counts one message that `actor` received.
    pub fn record_message_received(&mut self, actor: &str, message_type: &str)
        requires
            old(self).named(),
        ensures
            final(self).named(),
            *final(self) == (Metrics {
                messages_received: final(self).messages_received,
                ..*old(self)
            }),
            counter_family_count(final(self).messages_received, seq![actor@, message_type@])
                == incremented(
                counter_family_count(old(self).messages_received, seq![actor@, message_type@]),
            ),
    {
        let values: Vec<&str> = vec![actor, message_type];
        assert(texts(values@) =~= seq![actor@, message_type@]);
        let _ = counter_family_inc(&mut self.messages_received, &values);
    }

    /// Records that the circuit breaker went from `before` to `after`: the
    /// gauge shows `after`, and where the two differ the transition is
    /// counted under their names.
    pub fn record_circuit_change(&mut self, before: CircuitState, after: CircuitState)
        requires
            old(self).named(),
        ensures
            final(self).named(),
            *final(self) == (Metrics {
                circuit_breaker_state: final(self).circuit_breaker_state,
                circuit_breaker_transitions: final(self).circuit_breaker_transitions,
                ..*old(self)
            }),
            int_gauge_value(final(self).circuit_breaker_state) == match after {
                CircuitState::Closed => 0int,
                CircuitState::Open => 1int,
                CircuitState::HalfOpen => 2int,
            },
            before == after ==> final(self).circuit_breaker_transitions == old(
                self,
            ).circuit_breaker_transitions,
            before != after ==> counter_family_count(
                final(self).circuit_breaker_transitions,
                seq![circuit_state_label(before), circuit_state_label(after)],
            ) == incremented(
                counter_family_count(
                    old(self).circuit_breaker_transitions,
                    seq![circuit_state_label(before), circuit_state_label(after)],
                ),
            ),
    {
        self.update_circuit_breaker_state(circuit_state_code(after));
        if before != after {
            self.record_circuit_breaker_transition(
                circuit_state_name(before),
                circuit_state_name(after),
            );
        }
    }

    /// Records the health of the system: the gauge shows 0 for unhealthy,
    /// 1 for degraded and 2 for healthy.
    pub fn record_system_health(&mut self, status: &HealthStatus)
        requires
            old(self).named(),
        ensures
            final(self).named(),
            *final(self) == (Metrics {
                actor_health_status: final(self).actor_health_status,
                ..*old(self)
            }),
            int_gauge_value(final(self).actor_health_status) == match status {
                HealthStatus::Unhealthy(_) => 0int,
                HealthStatus::Degraded(_) => 1int,
                HealthStatus::Healthy => 2int,
            },
    {
        self.update_actor_health_status(health_status_code(status));
    }
}

} // verus!
