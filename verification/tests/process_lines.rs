use speedtest_controller::process::{match_listen_line, scan_for_listen};

#[test]
fn match_extracts_address() {
    let r = match_listen_line("Listen on 127.0.0.1:8080");
    assert_eq!(r, Some("127.0.0.1:8080".to_string()));
}

#[test]
fn match_extracts_address_mid_line() {
    let r = match_listen_line("[info] Listen on [::1]:9000");
    assert_eq!(r, Some("[::1]:9000".to_string()));
}

#[test]
fn match_takes_leftmost_occurrence() {
    let r = match_listen_line("Listen on Listen on x");
    assert_eq!(r, Some("Listen on x".to_string()));
}

#[test]
fn match_requires_address_after_prefix() {
    assert_eq!(match_listen_line("Listen on "), None);
}

#[test]
fn match_rejects_other_lines() {
    assert_eq!(match_listen_line(""), None);
    assert_eq!(match_listen_line("listening on 1.2.3.4"), None);
    assert_eq!(match_listen_line("Listen o 1.2.3.4"), None);
}

#[test]
fn scan_finds_first_matching_line() {
    let lines = vec![
        "starting up".to_string(),
        "Listen on 10.0.0.1:1".to_string(),
        "Listen on 10.0.0.2:2".to_string(),
    ];
    let r = scan_for_listen(&lines);
    assert_eq!(r, Some((1, "10.0.0.1:1".to_string())));
}

#[test]
fn scan_reports_no_match() {
    let lines = vec!["starting up".to_string(), "ready".to_string()];
    assert_eq!(scan_for_listen(&lines), None);
    assert_eq!(scan_for_listen(&Vec::new()), None);
}
