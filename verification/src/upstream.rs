//! Integration with the link-discovery collaborator that owns the
//! exclusion rules.
//!
//! The collaborator's client and URI types are opaque here: the library
//! asks the client for its exclusion verdict through one call, and does
//! everything else in verified code.

use vstd::prelude::*;

use crate::consume::{decide, Element, Step};
use crate::request::{rendered, Request};

verus! {

#[verifier::external_type_specification]
#[verifier::external_body]
pub struct ExClient(lychee_lib::Client);

#[verifier::external_type_specification]
#[verifier::external_body]
pub struct ExUri(lychee_lib::Uri);

/// Relies on `lychee_lib::Client::is_excluded`: whether the client's
/// exclusion rules reject the URI. The verdict depends on the client's
/// configuration, so nothing is promised of it; the consumer's
/// behaviour is verified for either answer.
#[verifier::external_body]
fn excluded_by(client: &lychee_lib::Client, uri: &lychee_lib::Uri) -> bool {
    client.is_excluded(uri)
}

/// Assess one discovered request against the client's exclusion rules.
/// `uri` is the request's URI as the collaborator holds it; `request`
/// is the same request in the library's model. Whatever the client
/// answers, a request element never aborts the run: it is either
/// skipped or emitted as its rendered line.
pub fn assess(
    client: &lychee_lib::Client,
    uri: &lychee_lib::Uri,
    request: &Request,
    verbose: bool,
) -> (s: Step)
    ensures
        s is Skip || (s is Emit && s->Emit_0@ == rendered(*request, verbose)),
{
    let excluded = excluded_by(client, uri);
    let duplicate = Request {
        locator: request.locator.clone(),
        provenance: match &request.provenance {
            Option::Some(p) => Option::Some(p.clone()),
            Option::None => Option::None,
        },
    };
    proof {
        assert(rendered(duplicate, verbose) == rendered(*request, verbose));
    }
    decide(&Element::Request(duplicate), excluded, verbose)
}

} // verus!
