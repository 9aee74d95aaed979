//! Response interpretation, shared by every operation: a status of exactly
//! 200 means success and the body is decoded as JSON; every other status
//! becomes a `Remote` error carrying the status and the body text verbatim.

use vstd::prelude::*;
use crate::VtError;
use crate::json::{json_wf_text, parse_json_text};

verus! {

/// Classifies one HTTP response, given its status code and the outcome of
/// reading its body as text (`Err` when the read itself failed).
///
/// Returns the decoded document exactly when the status is 200 and the body
/// is well-formed JSON. A 200 body that is not is a `Decode` error; any
/// other status is a `Remote` error with the body text unchanged.
pub fn process_resp(status: u16, body: Result<String, String>) -> (r: Result<serde_json::Value, VtError>)
    ensures
        r is Ok <==> (status == 200 && body is Ok && json_wf_text(body->Ok_0@)),
        (status == 200 && body is Ok && !json_wf_text(body->Ok_0@)) ==> (r matches Err(
            VtError::Decode(_),
        )),
        (status == 200 && body is Err) ==> (r matches Err(VtError::Transport(m)) && m@ == body->Err_0@),
        (status != 200 && body is Ok) ==> (r matches Err(VtError::Remote { status: s, text: t })
            && s == status && t@ == body->Ok_0@),
        (status != 200 && body is Err) ==> (r matches Err(VtError::TextRead(m)) && m@ == body->Err_0@),
{
    match body {
        Ok(text) => {
            if status == 200 {
                match parse_json_text(text.as_str()) {
                    Ok(v) => Ok(v),
                    Err(msg) => Err(VtError::Decode(msg)),
                }
            } else {
                Err(VtError::Remote { status, text })
            }
        },
        Err(msg) => {
            if status == 200 {
                Err(VtError::Transport(msg))
            } else {
                Err(VtError::TextRead(msg))
            }
        },
    }
}

/// Classifying the same status and body twice gives the same outcome: both
/// calls succeed together, and failing ones fail with the same error. The
/// decoded documents themselves come from the JSON codec, of which only
/// well-formedness is stated here.
pub proof fn lemma_process_resp_deterministic(
    status: u16,
    body: Result<String, String>,
    r1: Result<serde_json::Value, VtError>,
    r2: Result<serde_json::Value, VtError>,
)
    requires
        call_ensures(process_resp, (status, body), r1),
        call_ensures(process_resp, (status, body), r2),
    ensures
        r1 is Ok <==> r2 is Ok,
        (r1 matches Err(VtError::Remote { status: s1, text: t1 }) ==> (r2 matches Err(
            VtError::Remote { status: s2, text: t2 },
        ) && s1 == s2 && t1@ == t2@)),
        (r1 matches Err(VtError::Decode(_)) ==> r2 matches Err(VtError::Decode(_))),
        (r1 matches Err(VtError::Transport(m1)) ==> (r2 matches Err(VtError::Transport(m2))
            && m1@ == m2@)),
        (r1 matches Err(VtError::TextRead(m1)) ==> (r2 matches Err(VtError::TextRead(m2))
            && m1@ == m2@)),
{
}

} // verus!
