//! The link request data model and its textual rendering.

use vstd::prelude::*;

verus! {

/// One discovered link candidate: the locator (URI text) that identifies
/// its target, and optional provenance describing where it was found.
pub struct Request {
    pub locator: String,
    pub provenance: Option<String>,
}

/// The text line a request is rendered as.
///
/// Terse mode shows the locator alone, so the output can be piped into
/// another tool without mangling. Verbose mode appends the provenance,
/// when there is one, in parentheses.
pub open spec fn rendered(r: Request, verbose: bool) -> Seq<char> {
    match r.provenance {
        Option::Some(p) => {
            if verbose {
                r.locator@ + " ("@ + p@ + ")"@
            } else {
                r.locator@
            }
        },
        Option::None => r.locator@,
    }
}

impl Request {
    /// Render this request as one line of output text.
    pub fn render(&self, verbose: bool) -> (line: String)
        ensures
            line@ == rendered(*self, verbose),
    {
        match &self.provenance {
            Option::Some(p) => {
                if verbose {
                    let mut line = self.locator.clone();
                    line.append(" (");
                    line.append(p.as_str());
                    line.append(")");
                    line
                } else {
                    self.locator.clone()
                }
            },
            Option::None => self.locator.clone(),
        }
    }
}

} // verus!
