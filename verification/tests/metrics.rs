use request_observer::metrics::{
    exposition_response, latency_bounds_ms, metrics_handler, track_request_release,
    track_request_result, track_request_start, Metrics, MetricsError,
};

struct Sample {
    name: String,
    labels: Vec<(String, String)>,
    value: f64,
}

fn parse_labels(text: &str) -> Vec<(String, String)> {
    let mut labels = Vec::new();
    let mut rest = text;
    while !rest.is_empty() {
        let eq = rest.find("=\"").expect("label without a value");
        let name = rest[..eq].to_string();
        let mut value = String::new();
        let mut chars = rest[eq + 2..].char_indices();
        let mut end = None;
        while let Some((at, c)) = chars.next() {
            if c == '\\' {
                let (_, escaped) = chars.next().expect("dangling escape");
                value.push(if escaped == 'n' { '\n' } else { escaped });
            } else if c == '"' {
                end = Some(eq + 2 + at + 1);
                break;
            } else {
                value.push(c);
            }
        }
        let end = end.expect("label value without a closing quote");
        labels.push((name, value));
        rest = &rest[end..];
        if let Some(stripped) = rest.strip_prefix(',') {
            rest = stripped;
        }
    }
    labels
}

fn parse_samples(text: &str) -> Vec<Sample> {
    let mut samples = Vec::new();
    for line in text.lines() {
        if line.starts_with('#') || line.is_empty() {
            continue;
        }
        let space = line.rfind(' ').expect("sample without a value");
        let value: f64 = line[space + 1..].parse().expect("sample value is no number");
        let series = &line[..space];
        let (name, labels) = match series.find('{') {
            Some(open) => {
                assert!(series.ends_with('}'), "unclosed label set: {}", line);
                (series[..open].to_string(), parse_labels(&series[open + 1..series.len() - 1]))
            }
            None => (series.to_string(), Vec::new()),
        };
        samples.push(Sample { name, labels, value });
    }
    samples
}

fn rendered(metrics: &Metrics) -> String {
    String::from_utf8(metrics.render().expect("rendering failed")).expect("text is no UTF-8")
}

fn has_labels(sample: &Sample, wanted: &[(&str, &str)]) -> bool {
    sample.labels.len() == wanted.len()
        && wanted.iter().all(|(name, value)| {
            sample.labels.iter().any(|(n, v)| n == name && v == value)
        })
}

fn value_of(text: &str, name: &str, wanted: &[(&str, &str)]) -> Option<f64> {
    let found: Vec<f64> = parse_samples(text)
        .iter()
        .filter(|sample| sample.name == name && has_labels(sample, wanted))
        .map(|sample| sample.value)
        .collect();
    assert!(found.len() <= 1, "series {} occurs {} times", name, found.len());
    found.first().copied()
}

fn in_flight(metrics: &Metrics, method: &str, endpoint: &str) -> Option<f64> {
    value_of(
        &rendered(metrics),
        "http_requests_in_flight",
        &[("method", method), ("endpoint", endpoint)],
    )
}

fn total(metrics: &Metrics, method: &str, endpoint: &str, status: &str) -> Option<f64> {
    value_of(
        &rendered(metrics),
        "http_requests_total",
        &[("method", method), ("endpoint", endpoint), ("status", status)],
    )
}

fn observed(metrics: &Metrics, method: &str, endpoint: &str, status: &str) -> Option<f64> {
    value_of(
        &rendered(metrics),
        "http_request_duration_seconds_count",
        &[("method", method), ("endpoint", endpoint), ("status", status)],
    )
}

fn bucket(metrics: &Metrics, method: &str, endpoint: &str, status: &str, le: &str) -> Option<f64> {
    value_of(
        &rendered(metrics),
        "http_request_duration_seconds_bucket",
        &[("method", method), ("endpoint", endpoint), ("status", status), ("le", le)],
    )
}

#[test]
fn fresh_metrics_render_nothing() {
    let metrics = Metrics::new().unwrap();
    assert_eq!(rendered(&metrics), "");
}

#[test]
fn each_instance_has_its_own_registry() {
    let mut first = Metrics::new().unwrap();
    let second = Metrics::new().unwrap();
    track_request_start(&mut first, "GET", "/a");
    assert_eq!(in_flight(&first, "GET", "/a"), Some(1.0));
    assert_eq!(in_flight(&second, "GET", "/a"), None);
}

#[test]
fn start_adds_one_in_flight() {
    let mut metrics = Metrics::new().unwrap();
    track_request_start(&mut metrics, "GET", "/api/users");
    assert_eq!(in_flight(&metrics, "GET", "/api/users"), Some(1.0));
    track_request_start(&mut metrics, "GET", "/api/users");
    assert_eq!(in_flight(&metrics, "GET", "/api/users"), Some(2.0));
    assert_eq!(in_flight(&metrics, "POST", "/api/users"), None);
    assert_eq!(total(&metrics, "GET", "/api/users", "200"), None);
}

#[test]
fn result_counts_once_and_observes_once() {
    let mut metrics = Metrics::new().unwrap();
    track_request_start(&mut metrics, "GET", "/api/users");
    track_request_result(&mut metrics, "GET", "/api/users", 200, 3_000_000);
    assert_eq!(total(&metrics, "GET", "/api/users", "200"), Some(1.0));
    assert_eq!(observed(&metrics, "GET", "/api/users", "200"), Some(1.0));
    assert_eq!(in_flight(&metrics, "GET", "/api/users"), Some(0.0));
    track_request_start(&mut metrics, "GET", "/api/users");
    track_request_result(&mut metrics, "GET", "/api/users", 200, 3_000_000);
    assert_eq!(total(&metrics, "GET", "/api/users", "200"), Some(2.0));
    assert_eq!(observed(&metrics, "GET", "/api/users", "200"), Some(2.0));
    assert_eq!(in_flight(&metrics, "GET", "/api/users"), Some(0.0));
}

#[test]
fn status_is_written_as_a_decimal_label() {
    let mut metrics = Metrics::new().unwrap();
    for status in [200u16, 201, 404, 500, 0, 65535] {
        track_request_start(&mut metrics, "GET", "/s");
        track_request_result(&mut metrics, "GET", "/s", status, 1);
        assert_eq!(total(&metrics, "GET", "/s", &status.to_string()), Some(1.0));
    }
    assert_eq!(in_flight(&metrics, "GET", "/s"), Some(0.0));
}

#[test]
fn release_takes_one_out_of_flight_and_counts_nothing() {
    let mut metrics = Metrics::new().unwrap();
    track_request_start(&mut metrics, "GET", "/slow");
    track_request_start(&mut metrics, "GET", "/slow");
    track_request_release(&mut metrics, "GET", "/slow");
    assert_eq!(in_flight(&metrics, "GET", "/slow"), Some(1.0));
    let text = rendered(&metrics);
    assert!(!text.contains("http_requests_total"));
    assert!(!text.contains("http_request_duration_seconds"));
}

#[test]
fn gauge_follows_any_interleaving_and_returns_to_zero() {
    let mut metrics = Metrics::new().unwrap();
    let starts_then = [true, true, false, true, true, false, false, true, false, false];
    let mut open = 0.0;
    for started in starts_then {
        if started {
            track_request_start(&mut metrics, "GET", "/api/users/{id}");
            open += 1.0;
        } else {
            track_request_result(&mut metrics, "GET", "/api/users/{id}", 200, 1_000);
            open -= 1.0;
        }
        let now = in_flight(&metrics, "GET", "/api/users/{id}").unwrap();
        assert_eq!(now, open);
        assert!(now >= 0.0);
    }
    assert_eq!(in_flight(&metrics, "GET", "/api/users/{id}"), Some(0.0));
    assert_eq!(total(&metrics, "GET", "/api/users/{id}", "200"), Some(5.0));
}

#[test]
fn series_of_other_labels_are_not_touched() {
    let mut metrics = Metrics::new().unwrap();
    track_request_start(&mut metrics, "GET", "/a");
    track_request_start(&mut metrics, "POST", "/a");
    track_request_start(&mut metrics, "GET", "/b");
    track_request_result(&mut metrics, "GET", "/a", 200, 10);
    assert_eq!(in_flight(&metrics, "GET", "/a"), Some(0.0));
    assert_eq!(in_flight(&metrics, "POST", "/a"), Some(1.0));
    assert_eq!(in_flight(&metrics, "GET", "/b"), Some(1.0));
    assert_eq!(total(&metrics, "GET", "/a", "200"), Some(1.0));
    assert_eq!(total(&metrics, "POST", "/a", "200"), None);
    assert_eq!(total(&metrics, "GET", "/a", "500"), None);
}

#[test]
fn label_values_with_one_key_share_a_series() {
    let mut metrics = Metrics::new().unwrap();
    track_request_start(&mut metrics, "GET", "/ab");
    track_request_start(&mut metrics, "GET/", "ab");
    assert_eq!(in_flight(&metrics, "GET", "/ab"), Some(2.0));
    assert_eq!(in_flight(&metrics, "GET/", "ab"), None);
    track_request_release(&mut metrics, "GET/a", "b");
    assert_eq!(in_flight(&metrics, "GET", "/ab"), Some(1.0));
}

#[test]
fn metrics_can_be_handed_to_another_thread() {
    fn is_send<T: Send>(_: &T) {}
    let metrics = Metrics::new().unwrap();
    is_send(&metrics);
    let shared = std::sync::Arc::new(std::sync::Mutex::new(metrics));
    for _ in 0..3 {
        let handle = shared.clone();
        track_request_start(&mut handle.lock().unwrap(), "GET", "/busy");
        track_request_result(&mut handle.lock().unwrap(), "GET", "/busy", 200, 1);
    }
    let metrics = shared.lock().unwrap();
    assert_eq!(in_flight(&metrics, "GET", "/busy"), Some(0.0));
    assert_eq!(total(&metrics, "GET", "/busy", "200"), Some(3.0));
}

#[test]
fn duration_falls_into_the_smallest_bucket_that_holds_it() {
    let mut metrics = Metrics::new().unwrap();
    track_request_start(&mut metrics, "GET", "/t");
    track_request_result(&mut metrics, "GET", "/t", 200, 7_000_000);
    assert_eq!(bucket(&metrics, "GET", "/t", "200", "0.005"), Some(0.0));
    assert_eq!(bucket(&metrics, "GET", "/t", "200", "0.01"), Some(1.0));
    assert_eq!(bucket(&metrics, "GET", "/t", "200", "0.025"), Some(1.0));
    assert_eq!(bucket(&metrics, "GET", "/t", "200", "5"), Some(1.0));
    assert_eq!(bucket(&metrics, "GET", "/t", "200", "+Inf"), Some(1.0));
    let sum = value_of(
        &rendered(&metrics),
        "http_request_duration_seconds_sum",
        &[("method", "GET"), ("endpoint", "/t"), ("status", "200")],
    )
    .unwrap();
    assert!((sum - 0.007).abs() < 1e-12);
}

#[test]
fn bucket_bounds_are_inclusive() {
    let mut metrics = Metrics::new().unwrap();
    track_request_start(&mut metrics, "GET", "/t");
    track_request_result(&mut metrics, "GET", "/t", 200, 5_000_000);
    assert_eq!(bucket(&metrics, "GET", "/t", "200", "0.005"), Some(1.0));
    track_request_start(&mut metrics, "GET", "/t");
    track_request_result(&mut metrics, "GET", "/t", 200, 5_000_001);
    assert_eq!(bucket(&metrics, "GET", "/t", "200", "0.005"), Some(1.0));
    assert_eq!(bucket(&metrics, "GET", "/t", "200", "0.01"), Some(2.0));
}

#[test]
fn bucket_bounds_run_from_five_milliseconds_to_five_seconds() {
    let mut metrics = Metrics::new().unwrap();
    track_request_start(&mut metrics, "GET", "/t");
    track_request_result(&mut metrics, "GET", "/t", 200, 0);
    let text = rendered(&metrics);
    let bounds: Vec<String> = parse_samples(&text)
        .iter()
        .filter(|sample| sample.name == "http_request_duration_seconds_bucket")
        .map(|sample| sample.labels.iter().find(|(n, _)| n == "le").unwrap().1.clone())
        .collect();
    assert_eq!(
        bounds,
        vec!["0.005", "0.01", "0.025", "0.05", "0.1", "0.25", "0.5", "1", "2.5", "5", "+Inf"]
    );
}

#[test]
fn every_bound_takes_its_own_duration_and_not_a_nanosecond_more() {
    let bounds = latency_bounds_ms();
    let labels = ["0.005", "0.01", "0.025", "0.05", "0.1", "0.25", "0.5", "1", "2.5", "5"];
    for (at, bound) in bounds.iter().enumerate() {
        let mut metrics = Metrics::new().unwrap();
        let nanos = bound * 1_000_000;
        track_request_result(&mut metrics, "GET", "/b", 200, nanos);
        track_request_result(&mut metrics, "GET", "/b", 200, nanos + 1);
        track_request_result(&mut metrics, "GET", "/b", 200, nanos - 1);
        for (other, label) in labels.iter().enumerate() {
            let expected = if other < at {
                0.0
            } else if other == at {
                2.0
            } else {
                3.0
            };
            assert_eq!(bucket(&metrics, "GET", "/b", "200", label), Some(expected), "{}", label);
        }
        assert_eq!(bucket(&metrics, "GET", "/b", "200", "+Inf"), Some(3.0));
    }
}

#[test]
fn two_statuses_have_counters_of_their_own() {
    let mut metrics = Metrics::new().unwrap();
    track_request_start(&mut metrics, "GET", "/a");
    track_request_start(&mut metrics, "GET", "/a");
    track_request_result(&mut metrics, "GET", "/a", 200, 1_000_000);
    track_request_result(&mut metrics, "GET", "/a", 500, 1_000_000);
    assert_eq!(total(&metrics, "GET", "/a", "200"), Some(1.0));
    assert_eq!(total(&metrics, "GET", "/a", "500"), Some(1.0));
    assert_eq!(observed(&metrics, "GET", "/a", "200"), Some(1.0));
    assert_eq!(observed(&metrics, "GET", "/a", "500"), Some(1.0));
    assert_eq!(in_flight(&metrics, "GET", "/a"), Some(0.0));
}

#[test]
fn scrapes_change_nothing() {
    let mut metrics = Metrics::new().unwrap();
    track_request_start(&mut metrics, "GET", "/a");
    track_request_result(&mut metrics, "GET", "/a", 200, 7_000_000);
    track_request_start(&mut metrics, "POST", "/b");
    let first = metrics_handler(&metrics);
    let second = metrics_handler(&metrics);
    let third = metrics.render().unwrap();
    assert_eq!(first.status, 200);
    assert_eq!(first.body, second.body);
    assert_eq!(first.body, third);
    assert_eq!(first.content_type, second.content_type);
}

#[test]
fn metrics_can_always_be_made() {
    for _ in 0..20 {
        assert!(Metrics::new().is_ok());
    }
}

#[test]
fn bucket_bounds_are_given_in_milliseconds() {
    assert_eq!(latency_bounds_ms(), vec![5, 10, 25, 50, 100, 250, 500, 1000, 2500, 5000]);
}

#[test]
fn slow_request_counts_in_the_overflow_bucket_only() {
    let mut metrics = Metrics::new().unwrap();
    track_request_start(&mut metrics, "GET", "/t");
    track_request_result(&mut metrics, "GET", "/t", 200, 5_000_000_001);
    assert_eq!(bucket(&metrics, "GET", "/t", "200", "5"), Some(0.0));
    assert_eq!(bucket(&metrics, "GET", "/t", "200", "+Inf"), Some(1.0));
    assert_eq!(observed(&metrics, "GET", "/t", "200"), Some(1.0));
    track_request_start(&mut metrics, "GET", "/t");
    track_request_result(&mut metrics, "GET", "/t", 200, u64::MAX);
    assert_eq!(bucket(&metrics, "GET", "/t", "200", "5"), Some(0.0));
    assert_eq!(observed(&metrics, "GET", "/t", "200"), Some(2.0));
}

#[test]
fn exposition_declares_every_family_and_keeps_its_schema() {
    let mut metrics = Metrics::new().unwrap();
    for (method, endpoint, status) in
        [("GET", "/a", 200u16), ("GET", "/a", 200), ("POST", "/a", 201), ("GET", "/b/{id}", 500)]
    {
        track_request_start(&mut metrics, method, endpoint);
        track_request_result(&mut metrics, method, endpoint, status, 2_000_000);
    }
    track_request_start(&mut metrics, "GET", "/pending");
    let text = rendered(&metrics);
    for (name, kind) in [
        ("http_requests_total", "counter"),
        ("http_request_duration_seconds", "histogram"),
        ("http_requests_in_flight", "gauge"),
    ] {
        assert!(text.contains(&format!("# HELP {} ", name)));
        assert!(text.contains(&format!("# TYPE {} {}\n", name, kind)));
    }
    let mut counted = 0.0;
    for sample in parse_samples(&text) {
        let mut names: Vec<&str> = sample.labels.iter().map(|(n, _)| n.as_str()).collect();
        names.sort();
        match sample.name.as_str() {
            "http_requests_total" => {
                assert_eq!(names, vec!["endpoint", "method", "status"]);
                counted += sample.value;
            }
            "http_requests_in_flight" => assert_eq!(names, vec!["endpoint", "method"]),
            "http_request_duration_seconds_bucket" => {
                assert_eq!(names, vec!["endpoint", "le", "method", "status"])
            }
            "http_request_duration_seconds_sum" | "http_request_duration_seconds_count" => {
                assert_eq!(names, vec!["endpoint", "method", "status"])
            }
            other => panic!("unknown series {}", other),
        }
    }
    assert_eq!(counted, 4.0);
    assert_eq!(total(&metrics, "GET", "/a", "200"), Some(2.0));
    assert_eq!(in_flight(&metrics, "GET", "/pending"), Some(1.0));
}

#[test]
fn label_values_are_escaped_in_the_exposition() {
    let mut metrics = Metrics::new().unwrap();
    track_request_start(&mut metrics, "GET", "/q\"uote\\d");
    assert_eq!(in_flight(&metrics, "GET", "/q\"uote\\d"), Some(1.0));
    assert!(rendered(&metrics).contains("endpoint=\"/q\\\"uote\\\\d\""));
}

#[test]
fn scrape_is_answered_with_the_exposition() {
    let mut metrics = Metrics::new().unwrap();
    track_request_start(&mut metrics, "GET", "/a");
    let response = metrics_handler(&metrics);
    assert_eq!(response.status, 200);
    assert_eq!(response.content_type, "text/plain; version=0.0.4");
    assert_eq!(response.content_type, prometheus::TEXT_FORMAT);
    assert_eq!(String::from_utf8(response.body).unwrap(), rendered(&metrics));
}

#[test]
fn rendered_body_is_passed_on_unchanged() {
    let response = exposition_response(Ok(vec![1, 2, 3]));
    assert_eq!(response.status, 200);
    assert_eq!(response.content_type, "text/plain; version=0.0.4");
    assert_eq!(response.body, vec![1, 2, 3]);
}

#[test]
fn failure_to_render_is_answered_with_the_reason() {
    let response = exposition_response(Err(MetricsError::Encoding("disk on fire".to_string())));
    assert_eq!(response.status, 500);
    assert_eq!(response.content_type, "text/plain; charset=utf-8");
    assert_eq!(
        String::from_utf8(response.body).unwrap(),
        "failed to encode metrics: disk on fire"
    );
    let other = MetricsError::Registration("caf\u{e9}".to_string());
    assert_eq!(other.message_text(), "caf\u{e9}");
    assert_eq!(
        exposition_response(Err(other)).body,
        "failed to encode metrics: caf\u{e9}".as_bytes().to_vec()
    );
}
