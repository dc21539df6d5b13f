use linkdump::consume::{consume, decide, is_excluded, Element, Outcome, Report, Step};
use linkdump::request::Request;
use linkdump::sink::{after_write, classify_io_error, Reaction, WriteStatus};

fn req(locator: &str) -> Element {
    Element::Request(Request { locator: locator.to_string(), provenance: None })
}

fn req_from(locator: &str, provenance: &str) -> Element {
    Element::Request(Request {
        locator: locator.to_string(),
        provenance: Some(provenance.to_string()),
    })
}

fn strings(items: &[&str]) -> Vec<String> {
    items.iter().map(|s| s.to_string()).collect()
}

fn run_consume(elements: Vec<Element>, filter: &[&str], script: Vec<WriteStatus>) -> Report {
    consume(elements, &strings(filter), &script, false)
}

#[test]
fn clean_run_writes_all_lines_in_order() {
    let rep = run_consume(vec![req("A"), req("B"), req("C")], &[], vec![]);
    assert_eq!(rep.lines, strings(&["A", "B", "C"]));
    assert_eq!(rep.pulled, 3);
    assert!(rep.diagnostic.is_none());
    assert_eq!(rep.outcome, Ok(Outcome::Success));
}

#[test]
fn excluded_request_is_dropped_silently() {
    let rep = run_consume(vec![req("A"), req("B")], &["B"], vec![]);
    assert_eq!(rep.lines, strings(&["A"]));
    assert_eq!(rep.pulled, 2);
    assert!(rep.diagnostic.is_none());
    assert_eq!(rep.outcome, Ok(Outcome::Success));
}

#[test]
fn disconnect_keeps_pulling_and_succeeds() {
    let script = vec![WriteStatus::Written, WriteStatus::Disconnected, WriteStatus::Disconnected];
    let rep = run_consume(vec![req("A"), req("B"), req("C")], &[], script);
    assert_eq!(rep.lines, strings(&["A"]));
    assert_eq!(rep.pulled, 3);
    assert!(rep.diagnostic.is_none());
    assert_eq!(rep.outcome, Ok(Outcome::Success));
}

#[test]
fn other_write_fault_halts_with_diagnostic() {
    let script = vec![WriteStatus::Written, WriteStatus::Failed("permission denied".to_string())];
    let rep = run_consume(vec![req("A"), req("B"), req("C")], &[], script);
    assert_eq!(rep.lines, strings(&["A"]));
    assert_eq!(rep.pulled, 2, "the element after the fault must never be pulled");
    assert_eq!(rep.diagnostic, Some("permission denied".to_string()));
    assert_eq!(rep.outcome, Ok(Outcome::UnexpectedFailure));
}

#[test]
fn upstream_error_aborts_and_propagates() {
    let elements = vec![req("A"), Element::UpstreamError("malformed input".to_string()), req("C")];
    let rep = run_consume(elements, &[], vec![]);
    assert_eq!(rep.lines, strings(&["A"]));
    assert_eq!(rep.pulled, 2, "the element after the error must never be pulled");
    assert!(rep.diagnostic.is_none());
    assert_eq!(rep.outcome, Err("malformed input".to_string()));
}

#[test]
fn exhausted_script_means_writes_succeed() {
    let rep = run_consume(vec![req("A"), req("B")], &[], vec![WriteStatus::Written]);
    assert_eq!(rep.lines, strings(&["A", "B"]));
    assert_eq!(rep.outcome, Ok(Outcome::Success));
}

#[test]
fn excluded_request_consumes_no_write_attempt() {
    let script = vec![WriteStatus::Failed("device error".to_string())];
    let rep = run_consume(vec![req("A"), req("B")], &["A"], script);
    assert_eq!(rep.lines, strings(&[]));
    assert_eq!(rep.pulled, 2);
    assert_eq!(rep.diagnostic, Some("device error".to_string()));
    assert_eq!(rep.outcome, Ok(Outcome::UnexpectedFailure));
}

#[test]
fn terse_render_is_locator_alone() {
    let r = Request {
        locator: "https://example.com".to_string(),
        provenance: Some("README.md".to_string()),
    };
    assert_eq!(r.render(false), "https://example.com");
}

#[test]
fn verbose_render_appends_provenance() {
    let r = Request {
        locator: "https://example.com".to_string(),
        provenance: Some("README.md".to_string()),
    };
    assert_eq!(r.render(true), "https://example.com (README.md)");
}

#[test]
fn verbose_render_without_provenance_is_locator() {
    let r = Request { locator: "https://example.com".to_string(), provenance: None };
    assert_eq!(r.render(true), "https://example.com");
}

#[test]
fn verbose_and_terse_differ_with_provenance() {
    let r = Request {
        locator: "https://example.com".to_string(),
        provenance: Some("README.md".to_string()),
    };
    assert_ne!(r.render(true), r.render(false));
}

#[test]
fn decide_aborts_on_upstream_error() {
    let e = Element::UpstreamError("boom".to_string());
    match decide(&e, false, false) {
        Step::Abort(m) => assert_eq!(m, "boom"),
        other => panic!("expected an abort, got {:?}", other),
    }
}

#[test]
fn decide_skips_excluded_request() {
    match decide(&req("A"), true, false) {
        Step::Skip => {}
        other => panic!("expected a skip, got {:?}", other),
    }
}

#[test]
fn decide_emits_rendered_line() {
    match decide(&req_from("https://example.com", "README.md"), false, true) {
        Step::Emit(line) => assert_eq!(line, "https://example.com (README.md)"),
        other => panic!("expected an emit, got {:?}", other),
    }
}

#[test]
fn after_write_proceeds_on_success_and_disconnect() {
    assert!(matches!(after_write(&WriteStatus::Written), Reaction::Proceed));
    assert!(matches!(after_write(&WriteStatus::Disconnected), Reaction::Proceed));
}

#[test]
fn after_write_halts_on_other_fault() {
    match after_write(&WriteStatus::Failed("denied".to_string())) {
        Reaction::Halt(m) => assert_eq!(m, "denied"),
        other => panic!("expected a halt, got {:?}", other),
    }
}

#[test]
fn broken_pipe_is_classified_ignorable() {
    let e = std::io::Error::new(std::io::ErrorKind::BrokenPipe, "pipe closed");
    assert!(matches!(classify_io_error(&e), WriteStatus::Disconnected));
}

#[test]
fn other_io_error_is_classified_fatal() {
    let e = std::io::Error::new(std::io::ErrorKind::PermissionDenied, "permission denied");
    match classify_io_error(&e) {
        WriteStatus::Failed(m) => assert_eq!(m, "permission denied"),
        other => panic!("expected a fatal classification, got {:?}", other),
    }
}

#[test]
fn exclusion_list_matches_exact_locators() {
    let filter = strings(&["https://a", "https://b"]);
    assert!(is_excluded(&filter, &"https://a".to_string()));
    assert!(is_excluded(&filter, &"https://b".to_string()));
    assert!(!is_excluded(&filter, &"https://c".to_string()));
    assert!(!is_excluded(&strings(&[]), &"https://a".to_string()));
}

#[test]
fn outcome_codes_distinguish_success_from_failure() {
    assert_eq!(Outcome::Success.code(), 0);
    assert_eq!(Outcome::UnexpectedFailure.code(), 1);
}
