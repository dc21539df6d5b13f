use std::convert::TryFrom;

use linkdump::consume::Step;
use linkdump::request::Request;
use linkdump::upstream::assess;
use lychee_lib::{ClientBuilder, Uri};

fn request_for(uri: &Uri, provenance: Option<&str>) -> Request {
    Request {
        locator: uri.as_str().to_string(),
        provenance: provenance.map(|p| p.to_string()),
    }
}

#[test]
fn accepted_link_is_emitted_terse() {
    let client = ClientBuilder::builder().build().client().unwrap();
    let uri = Uri::try_from("https://rust-lang.org").unwrap();
    let request = request_for(&uri, Some("README.md"));
    match assess(&client, &uri, &request, false) {
        Step::Emit(line) => assert_eq!(line, "https://rust-lang.org/"),
        other => panic!("expected an emit, got {:?}", other),
    }
}

#[test]
fn accepted_link_is_emitted_verbose() {
    let client = ClientBuilder::builder().build().client().unwrap();
    let uri = Uri::try_from("https://rust-lang.org").unwrap();
    let request = request_for(&uri, Some("README.md"));
    match assess(&client, &uri, &request, true) {
        Step::Emit(line) => assert_eq!(line, "https://rust-lang.org/ (README.md)"),
        other => panic!("expected an emit, got {:?}", other),
    }
}

#[test]
fn excluded_mail_address_is_skipped() {
    let client = ClientBuilder::builder().exclude_mail(true).build().client().unwrap();
    let uri = Uri::try_from("mailto:hello@example.com").unwrap();
    let request = request_for(&uri, None);
    match assess(&client, &uri, &request, false) {
        Step::Skip => {}
        other => panic!("expected a skip, got {:?}", other),
    }
}
