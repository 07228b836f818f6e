use apache_log_exporter::metrics::Metrics;
use apache_log_exporter::web::handle;
use apache_log_exporter::web::handle_request;
use apache_log_exporter::web::metrics_reply;
use apache_log_exporter::web::not_found;
use apache_log_exporter::web::try_encode;
use apache_log_exporter::web::MetricsEncodeResult;
use apache_log_exporter::web::Route;

#[test]
fn only_get_metrics_is_routed() {
    assert_eq!(handle_request("GET", "/metrics"), Route::Metrics);
    assert_eq!(handle_request("POST", "/metrics"), Route::NotFound);
    assert_eq!(handle_request("HEAD", "/metrics"), Route::NotFound);
    assert_eq!(handle_request("get", "/metrics"), Route::NotFound);
    assert_eq!(handle_request("GET", "/"), Route::NotFound);
    assert_eq!(handle_request("GET", "/metrics/"), Route::NotFound);
    assert_eq!(handle_request("GET", "/Metrics"), Route::NotFound);
    assert_eq!(handle_request("GET", ""), Route::NotFound);
    assert_eq!(handle_request("", "/metrics"), Route::NotFound);
}

#[test]
fn nothing_found_is_404_without_body() {
    let reply = not_found();
    assert_eq!(reply.status, 404);
    assert_eq!(reply.content_type, None);
    assert_eq!(reply.body, "");
}

#[test]
fn encoded_metrics_are_sent_as_openmetrics_text() {
    let reply = metrics_reply(MetricsEncodeResult::Encoded("# EOF\n".to_string()));
    assert_eq!(reply.status, 200);
    assert_eq!(
        reply.content_type,
        Some("application/openmetrics-text; version=1.0.0; charset=utf-8".to_string())
    );
    assert_eq!(reply.body, "# EOF\n");
}

#[test]
fn failures_are_500_without_body() {
    for failure in [MetricsEncodeResult::FailedAcquiringRegistryLock, MetricsEncodeResult::FailedEncodingMetrics] {
        let reply = metrics_reply(failure);
        assert_eq!(reply.status, 500);
        assert_eq!(reply.content_type, None);
        assert_eq!(reply.body, "");
    }
}

#[test]
fn a_registry_that_cannot_be_had_is_a_failure() {
    assert!(matches!(try_encode(None), MetricsEncodeResult::FailedAcquiringRegistryLock));
    let reply = handle(None);
    assert_eq!(reply.status, 500);
    assert_eq!(reply.content_type, None);
    assert_eq!(reply.body, "");
}

#[test]
fn a_registry_is_encoded_to_its_end_marker() {
    let (registry, _metrics) = Metrics::new();
    match try_encode(Some(&registry)) {
        MetricsEncodeResult::Encoded(text) => assert!(text.ends_with("# EOF\n")),
        other => panic!("unexpected result {:?}", other),
    }
}
