use bitcoin_exporter::config::{default_bind, default_host};
use bitcoin_exporter::serve::{fallback_response, route, Route};

#[test]
fn only_get_metrics_is_routed_to_the_collectors() {
    assert_eq!(route("GET", "/metrics"), Route::Metrics);
    assert_eq!(route("POST", "/metrics"), Route::Fallback);
    assert_eq!(route("GET", "/other"), Route::Fallback);
    assert_eq!(route("GET", "/"), Route::Fallback);
    assert_eq!(route("PUT", "/metrics"), Route::Fallback);
    assert_eq!(route("GET", "/metrics/"), Route::Fallback);
}

#[test]
fn unmatched_requests_get_an_empty_two_hundred() {
    let r = fallback_response();
    assert_eq!(r.status, 200);
    assert!(r.content_type.is_none());
    assert_eq!(r.body, "");
}

#[test]
fn configuration_defaults() {
    assert_eq!(default_host(), "http://127.0.0.1:8332");
    assert_eq!(default_bind(), "127.0.0.1:9898");
}
