//! The client's address normal form and request URLs, and the text helpers
//! they rest on.

use runners::client::Client;
use runners::text::{decimal_string, has_prefix, join_path, str_eq};

#[test]
fn address_gets_the_scheme_once() {
    let bare = Client::new("localhost:3030");
    assert_eq!(bare.server_address(), "http://localhost:3030");
    let already = Client::new("http://tower:7070");
    assert_eq!(already.server_address(), "http://tower:7070");
}

#[test]
fn default_client_uses_the_local_server() {
    let c = Client::default();
    assert_eq!(c.server_address(), "http://127.0.0.1:3030");
}

#[test]
fn request_urls() {
    let c = Client::new("http://h:1");
    assert_eq!(c.jobs_url(), "http://h:1/jobs");
    assert_eq!(c.job_url(7), "http://h:1/jobs/7");
    assert_eq!(c.job_files_url(12), "http://h:1/jobs/12/files");
    assert_eq!(c.job_file_url(3, "job.out"), "http://h:1/jobs/3/files/job.out");
}

#[test]
fn decimal_rendering() {
    assert_eq!(decimal_string(0), "0");
    assert_eq!(decimal_string(7), "7");
    assert_eq!(decimal_string(10), "10");
    assert_eq!(decimal_string(12345), "12345");
    assert_eq!(decimal_string(usize::MAX), usize::MAX.to_string());
}

#[test]
fn text_helpers() {
    assert_eq!(join_path("/tmp/w", "run"), "/tmp/w/run");
    assert!(str_eq("abc", "abc"));
    assert!(!str_eq("abc", "abd"));
    assert!(has_prefix("http://x", "http://"));
    assert!(!has_prefix("htt", "http://"));
    assert!(has_prefix("anything", ""));
}
