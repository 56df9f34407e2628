use sheepdog::pypi::{
    latest_version_from_parsed, latest_version_from_response, pypi_json_url, version_info, PypiCache,
};

fn s(x: &str) -> String {
    x.to_string()
}

#[test]
fn empty_cache_has_nothing() {
    let cache = PypiCache::new();
    assert_eq!(cache.cached_latest("requests"), None);
    assert!(cache.check_cached(&s("requests"), &s("2.0")).is_none());
}

#[test]
fn fetched_versions_are_cached_case_insensitively() {
    let mut cache = PypiCache::new();
    let info = cache.record_fetch(s("Django"), s("5.1.4"), Ok(s("5.1.5")));
    assert_eq!(info.package_name, "Django");
    assert_eq!(info.latest_version.as_deref(), Some("5.1.5"));
    assert!(info.is_outdated);
    assert!(info.error.is_none());
    assert_eq!(cache.cached_latest("django"), Some(s("5.1.5")));
    let again = cache.check_cached(&s("DJANGO"), &s("5.1.5")).unwrap();
    assert_eq!(again.latest_version.as_deref(), Some("5.1.5"));
    assert!(!again.is_outdated);
}

#[test]
fn failed_fetches_are_reported_and_not_cached() {
    let mut cache = PypiCache::new();
    let info = cache.record_fetch(s("nope"), s("1.0"), Err(s("PyPI returned 404 Not Found for nope")));
    assert_eq!(info.latest_version, None);
    assert!(!info.is_outdated);
    assert_eq!(info.error.as_deref(), Some("PyPI returned 404 Not Found for nope"));
    assert_eq!(cache.cached_latest("nope"), None);
}

#[test]
fn later_versions_replace_earlier_ones() {
    let mut cache = PypiCache::new();
    cache.remember("numpy", s("2.2.0"));
    cache.remember("NumPy", s("2.2.1"));
    assert_eq!(cache.cached_latest("numpy"), Some(s("2.2.1")));
}

#[test]
fn up_to_date_packages_are_not_outdated() {
    let info = version_info(s("rich"), s("13.9.4"), Ok(s("13.9.4")));
    assert!(!info.is_outdated);
    assert_eq!(pypi_json_url("rich"), "https://pypi.org/pypi/rich/json");
}

#[test]
fn response_with_version_gives_it() {
    let body = br#"{"info": {"name": "requests", "version": "2.32.3"}, "releases": {}}"#;
    assert_eq!(latest_version_from_response("requests", true, "200 OK", body), Ok(s("2.32.3")));
}

#[test]
fn failed_status_is_reported_without_reading_the_body() {
    assert_eq!(
        latest_version_from_response("nosuchpkg", false, "404 Not Found", b"not json"),
        Err(s("PyPI returned 404 Not Found for nosuchpkg"))
    );
}

#[test]
fn json_without_version_is_reported() {
    assert_eq!(
        latest_version_from_response("x", true, "200 OK", br#"{"info": {"version": 3}}"#),
        Err(s("No version found for x"))
    );
    assert_eq!(
        latest_version_from_response("x", true, "200 OK", b"[]"),
        Err(s("No version found for x"))
    );
}

#[test]
fn body_that_is_not_json_is_reported() {
    let r = latest_version_from_response("x", true, "200 OK", b"<html>");
    let e = r.unwrap_err();
    assert!(e.starts_with("Failed to parse JSON for x: "));
    assert!(e.len() > "Failed to parse JSON for x: ".len());
}

#[test]
fn parsed_answers_map_to_results() {
    assert_eq!(latest_version_from_parsed("a", true, "200 OK", Ok(Some(s("1.0")))), Ok(s("1.0")));
    assert_eq!(latest_version_from_parsed("a", true, "200 OK", Ok(None)), Err(s("No version found for a")));
    assert_eq!(
        latest_version_from_parsed("a", true, "200 OK", Err(s("expected value at line 1 column 1"))),
        Err(s("Failed to parse JSON for a: expected value at line 1 column 1"))
    );
    assert_eq!(
        latest_version_from_parsed("a", false, "500 Internal Server Error", Ok(Some(s("1.0")))),
        Err(s("PyPI returned 500 Internal Server Error for a"))
    );
}

#[test]
fn fetched_answer_is_recorded_in_the_cache() {
    let mut cache = PypiCache::new();
    let body = br#"{"info": {"version": "9.0"}}"#;
    let fetched = latest_version_from_response("Requests", true, "200 OK", body);
    let info = cache.record_fetch(s("Requests"), s("8.0"), fetched);
    assert_eq!(info.latest_version.as_deref(), Some("9.0"));
    assert!(info.is_outdated);
    assert_eq!(cache.cached_latest("requests"), Some(s("9.0")));
}
