use request_observer::endpoint::normalize_endpoint;
use request_observer::identifier::{is_identifier_segment, is_unsigned_segment, is_uuid_segment};

#[test]
fn numeric_segment_becomes_placeholder() {
    assert_eq!(normalize_endpoint("/users/42"), "/users/{id}");
}

#[test]
fn uuid_segment_becomes_placeholder() {
    assert_eq!(
        normalize_endpoint("/users/550e8400-e29b-41d4-a716-446655440000"),
        "/users/{id}"
    );
}

#[test]
fn only_slashes_give_root() {
    assert_eq!(normalize_endpoint("///"), "/");
    assert_eq!(normalize_endpoint("/"), "/");
}

#[test]
fn empty_path_gives_root() {
    assert_eq!(normalize_endpoint(""), "/");
}

#[test]
fn digits_with_letters_are_kept() {
    assert_eq!(normalize_endpoint("/users/12a"), "/users/12a");
    assert_eq!(normalize_endpoint("/users/a12"), "/users/a12");
    assert_eq!(normalize_endpoint("/v1/users"), "/v1/users");
}

#[test]
fn plain_paths_are_unchanged() {
    for path in ["/api/health", "/api/users", "/a", "/metrics", "/api/compute/now"] {
        assert_eq!(normalize_endpoint(path), path);
    }
}

#[test]
fn superfluous_slashes_collapse() {
    assert_eq!(normalize_endpoint("/api/health/"), "/api/health");
    assert_eq!(normalize_endpoint("//api///health//"), "/api/health");
    assert_eq!(normalize_endpoint("api/health"), "/api/health");
    assert_eq!(normalize_endpoint("/users//42/"), "/users/{id}");
}

#[test]
fn every_identifier_is_replaced() {
    assert_eq!(
        normalize_endpoint("/orgs/7/users/550e8400-e29b-41d4-a716-446655440000/posts/0"),
        "/orgs/{id}/users/{id}/posts/{id}"
    );
    assert_eq!(normalize_endpoint("42"), "/{id}");
}

#[test]
fn label_is_a_fixed_point() {
    for path in ["/users/42", "//a//7/", "", "/x/550e8400-e29b-41d4-a716-446655440000"] {
        let once = normalize_endpoint(path);
        assert_eq!(normalize_endpoint(&once), once);
    }
}

#[test]
fn non_ascii_segments_are_kept() {
    assert_eq!(normalize_endpoint("/caf\u{e9}/\u{4e16}\u{754c}/9"), "/caf\u{e9}/\u{4e16}\u{754c}/{id}");
    assert_eq!(normalize_endpoint("/\u{663}"), "/\u{663}");
}

#[test]
fn unsigned_segments_are_those_that_parse() {
    let samples = [
        "", "0", "7", "42", "007", "+42", "+", "-1", "+-1", "4 2", " 42", "42 ", "1_000", "0x10",
        "12a", "a12", "1.5", "18446744073709551615", "18446744073709551616",
        "+18446744073709551615", "99999999999999999999", "000000000000000000000000000001",
        "000000000000000000018446744073709551616", "\u{663}", "1\u{663}", "++1",
    ];
    for sample in samples {
        assert_eq!(is_unsigned_segment(sample), sample.parse::<u64>().is_ok(), "{:?}", sample);
    }
}

#[test]
fn widest_number_is_an_identifier() {
    assert!(is_unsigned_segment("18446744073709551615"));
    assert!(!is_unsigned_segment("18446744073709551616"));
    assert_eq!(normalize_endpoint("/n/18446744073709551615"), "/n/{id}");
    assert_eq!(normalize_endpoint("/n/18446744073709551616"), "/n/18446744073709551616");
}

#[test]
fn only_the_canonical_uuid_form_is_an_identifier() {
    assert!(is_uuid_segment("550e8400-e29b-41d4-a716-446655440000"));
    assert!(is_uuid_segment("F9168C5E-CEB2-4faa-B6BF-329BF39FA1E4"));
    assert!(is_uuid_segment("00000000-0000-0000-0000-000000000000"));
    assert!(!is_uuid_segment("550e8400e29b41d4a716446655440000"));
    assert!(!is_uuid_segment("{550e8400-e29b-41d4-a716-446655440000}"));
    assert!(!is_uuid_segment("urn:uuid:550e8400-e29b-41d4-a716-446655440000"));
    assert!(!is_uuid_segment("550e8400-e29b-41d4-a716-44665544000"));
    assert!(!is_uuid_segment("550e8400-e29b-41d4-a716-4466554400000"));
    assert!(!is_uuid_segment("550e8400-e29b-41d4-a716-44665544000g"));
    assert!(!is_uuid_segment("550e8400-e29b-41d4-a716x446655440000"));
    assert!(!is_uuid_segment("550e8400e-29b-41d4-a716-446655440000"));
    assert!(!is_uuid_segment(""));
    assert!(!is_uuid_segment("\u{e9}50e8400-e29b-41d4-a716-446655440000"));
}

#[test]
fn uuid_segments_are_the_hyphenated_ones_the_parser_takes() {
    let samples = [
        "550e8400-e29b-41d4-a716-446655440000",
        "550E8400-E29B-41D4-A716-446655440000",
        "550e8400e29b41d4a716446655440000",
        "{550e8400-e29b-41d4-a716-446655440000}",
        "urn:uuid:550e8400-e29b-41d4-a716-446655440000",
        "550e8400-e29b-41d4-a716-44665544000z",
        "550e8400-e29b-41d4-a7160446655440000",
        "------------------------------------",
        "users",
    ];
    for sample in samples {
        let expected = sample.chars().count() == 36 && uuid::Uuid::parse_str(sample).is_ok();
        assert_eq!(is_uuid_segment(sample), expected, "{:?}", sample);
    }
}

#[test]
fn other_uuid_forms_are_kept_in_labels() {
    assert_eq!(
        normalize_endpoint("/u/550e8400e29b41d4a716446655440000"),
        "/u/550e8400e29b41d4a716446655440000"
    );
    assert_eq!(
        normalize_endpoint("/u/{550e8400-e29b-41d4-a716-446655440000}"),
        "/u/{550e8400-e29b-41d4-a716-446655440000}"
    );
}

#[test]
fn identifiers_are_numbers_and_uuids() {
    assert!(is_identifier_segment("123"));
    assert!(is_identifier_segment("+5"));
    assert!(is_identifier_segment("550e8400-e29b-41d4-a716-446655440000"));
    assert!(!is_identifier_segment("{id}"));
    assert!(!is_identifier_segment("users"));
    assert!(!is_identifier_segment(""));
}

#[test]
fn labels_hold_no_identifier() {
    let paths = [
        "/users/42",
        "/a/1/b/2/c/550e8400-e29b-41d4-a716-446655440000",
        "//+7//x/",
        "/18446744073709551616/0",
        "/{id}/9",
        "",
    ];
    for path in paths {
        let label = normalize_endpoint(path);
        assert!(label.starts_with('/'));
        assert!(!label.contains("//"));
        assert!(label == "/" || !label.ends_with('/'));
        for segment in label.split('/').filter(|segment| !segment.is_empty()) {
            assert!(!is_identifier_segment(segment), "{:?} in {:?}", segment, label);
        }
    }
}
