use ximonitor_server::server::{
    bootstrap_response, should_warn_missing_dir, LANDING_PAGE_HTML, SERVICE_NAME, STATUS_OK,
};

#[test]
fn bootstrap_response_reports_service_and_config() {
    let res = bootstrap_response("https://monitor.example".to_string(), 15);
    assert_eq!(res.service, "ximonitor-server");
    assert_eq!(res.service, SERVICE_NAME);
    assert_eq!(res.status, "ok");
    assert_eq!(res.status, STATUS_OK);
    assert_eq!(res.public_base_url, "https://monitor.example");
    assert_eq!(res.refresh_interval_secs, 15);
}

#[test]
fn missing_named_dir_is_warned() {
    assert!(should_warn_missing_dir("data/snapshots", false));
}

#[test]
fn existing_dir_is_not_warned() {
    assert!(!should_warn_missing_dir("data/snapshots", true));
}

#[test]
fn empty_parent_is_not_warned() {
    assert!(!should_warn_missing_dir("", false));
    assert!(!should_warn_missing_dir("", true));
}

#[test]
fn landing_page_names_endpoints() {
    assert!(LANDING_PAGE_HTML.starts_with("<!doctype html>"));
    assert!(LANDING_PAGE_HTML.contains("<code>/healthz</code>"));
    assert!(LANDING_PAGE_HTML.contains("<code>/api/bootstrap</code>"));
}
