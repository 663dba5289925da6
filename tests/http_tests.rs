use isiprint::http_api::{default_copies, is_origin_allowed, print_jobs_from_logs, printer_infos, validate_domain};
use isiprint::state::LogEntry;
use std::collections::VecDeque;

fn validate(origin: &str) -> bool {
    validate_domain(origin.to_string()).unwrap()
}

#[test]
fn test_validate_domain_localhost() {
    assert!(validate("http://localhost:1420"), "localhost debería estar permitido");
    assert!(validate("http://127.0.0.1:7777"), "127.0.0.1 debería estar permitido");
}

#[test]
fn test_validate_domain_allowed_patterns() {
    assert!(validate("https://app.integrate.com.bo"), "*.integrate.com.bo debería estar permitido");
    assert!(validate("https://sandbox.isipass.net"), "*.isipass.net debería estar permitido");
    assert!(validate("https://api.isipay.me"), "*.isipay.me debería estar permitido");
}

#[test]
fn test_validate_domain_denied() {
    assert!(!validate("https://malicious-site.com"), "malicious-site.com NO debería estar permitido");
    assert!(!validate("https://google.com"), "google.com NO debería estar permitido");
    assert!(!validate("https://fake-isipass.net.evil.com"), "fake-isipass.net.evil.com NO debería estar permitido");
}

#[test]
fn test_validate_domain_edge_cases() {
    assert!(!validate(""), "URL vacía NO debería estar permitida");
    assert!(!validate("not-a-valid-url"), "URL inválida NO debería estar permitida");
}

#[test]
fn test_origin_localhost_allowed() {
    assert!(is_origin_allowed("http://localhost"));
    assert!(is_origin_allowed("http://localhost:3000"));
    assert!(is_origin_allowed("http://127.0.0.1"));
    assert!(is_origin_allowed("http://127.0.0.1:8080"));
}

#[test]
fn test_origin_isipass_allowed() {
    assert!(is_origin_allowed("https://app.isipass.net"));
    assert!(is_origin_allowed("https://sandbox.isipass.net"));
    assert!(is_origin_allowed("https://isipass.net"));
}

#[test]
fn test_origin_integrate_allowed() {
    assert!(is_origin_allowed("https://pos.integrate.com.bo"));
    assert!(is_origin_allowed("https://integrate.com.bo"));
}

#[test]
fn test_origin_malicious_rejected() {
    assert!(!is_origin_allowed("https://evil.com"));
    assert!(!is_origin_allowed("https://fakeisipass.net"));
    assert!(!is_origin_allowed("https://isipass.net.evil.com"));
}

#[test]
fn test_origin_adeabordo_allowed() {
    assert!(is_origin_allowed("https://app.adeabordo.com"));
    assert!(is_origin_allowed("https://adeabordo.com.bo"));
}

#[test]
fn test_origin_empty_allowed() {
    assert!(is_origin_allowed(""));
}

#[test]
fn origin_path_and_bare_host_are_handled() {
    assert!(is_origin_allowed("https://app.isipass.net/print?x=1"));
    assert!(is_origin_allowed("localhost:5173"));
    assert!(!is_origin_allowed("ftp://localhost"));
}

#[test]
fn one_copy_by_default() {
    assert_eq!(default_copies(), 1);
}

#[test]
fn first_printer_is_default() {
    let infos = printer_infos(vec!["A".to_string(), "B".to_string()]);
    assert_eq!(infos.len(), 2);
    assert!(infos[0].is_default);
    assert_eq!(infos[1].name, "B");
    assert!(!infos[1].is_default);
}

#[test]
fn print_activity_comes_from_the_log() {
    let mut logs = VecDeque::new();
    for (i, m) in ["Printed OK", "Login successful", "PRINT error", "Session closed"].iter().enumerate() {
        logs.push_back(LogEntry { timestamp: format!("t{}", i), level: "info".to_string(), message: m.to_string() });
    }
    let jobs = print_jobs_from_logs(&logs);
    assert_eq!(jobs.len(), 2);
    assert_eq!(jobs[0].id, "0");
    assert_eq!(jobs[0].message, "Printed OK");
    assert_eq!(jobs[1].id, "1");
    assert_eq!(jobs[1].timestamp, "t2");
}
