//! Rendering an outcome as the one display text that crosses the bridge.

use crate::outcome::{json_wf, pretty_json, Outcome, Payload, RawResponse};
use crate::text::{dec_str, push_dec_u16, u16_to_string};
use vstd::prelude::*;

verus! {

/// The text of the synthetic structured value that a success falls back to
/// when its body does not decode: the real status code and a fixed
/// sentinel detail.
pub open spec fn fallback_text(status_code: u16) -> Seq<char> {
    "{\n  \"detail\": \"Failed to deserialize response\",\n  \"status\": "@ + dec_str(
        status_code as nat,
    ) + "\n}"@
}

/// The text a payload renders as: the decoded document's indented
/// rendering, or the synthetic fallback for a body that did not decode.
pub open spec fn payload_text(status_code: u16, p: Payload) -> Seq<char> {
    match p {
        Payload::Structured(s) => s@,
        Payload::Raw(_) => fallback_text(status_code),
    }
}

/// The display text of an outcome: for a success, the decimal status code,
/// a line break, then the rendered payload; for a failure, the fixed
/// `Error: ` prefix followed by the message verbatim.
pub open spec fn display_text(o: Outcome) -> Seq<char> {
    match o {
        Outcome::Success { status_code, payload } => dec_str(status_code as nat) + seq!['\n']
            + payload_text(status_code, payload),
        Outcome::Failure { message } => "Error: "@ + message@,
    }
}

/// Render an outcome as display text. Total: every outcome formats, and
/// the text is a function of the outcome alone, so formatting the same
/// outcome twice yields identical text.
pub fn format_response(o: &Outcome) -> (r: String)
    ensures
        r@ == display_text(*o),
{
    match o {
        Outcome::Success { status_code, payload } => {
            let mut r = u16_to_string(*status_code);
            r.push('\n');
            proof {
                assert(r@ =~= dec_str(*status_code as nat) + seq!['\n']);
            }
            match payload {
                Payload::Structured(s) => {
                    r.push_str(s.as_str());
                },
                Payload::Raw(_) => {
                    r.push_str("{\n  \"detail\": \"Failed to deserialize response\",\n  \"status\": ");
                    push_dec_u16(&mut r, *status_code);
                    r.push_str("\n}");
                    proof {
                        assert(r@ =~= dec_str(*status_code as nat) + seq!['\n'] + fallback_text(
                            *status_code,
                        ));
                    }
                },
            }
            r
        },
        Outcome::Failure { message } => {
            let mut r = String::new();
            r.push_str("Error: ");
            r.push_str(message.as_str());
            proof {
                assert(r@ =~= "Error: "@ + message@);
            }
            r
        },
    }
}

/// The display text the worker owes for one transport result: the status
/// line and the decoded body for a response, with the decode fallback for
/// a body that is not a well-formed document; the prefixed error message
/// for a transport failure.
pub open spec fn transport_display_text(t: Result<RawResponse, String>) -> Seq<char> {
    match t {
        Ok(resp) => dec_str(resp.status_code as nat) + seq!['\n'] + (if json_wf(resp.body@) {
            pretty_json(resp.body@)
        } else {
            fallback_text(resp.status_code)
        }),
        Err(m) => "Error: "@ + m@,
    }
}

/// The worker's whole step once the transport has returned: build the
/// outcome and render it as the one message owed for the submission.
pub fn worker_message(t: Result<RawResponse, String>) -> (r: String)
    requires
        t matches Ok(resp) ==> resp.wf(),
    ensures
        r@ == transport_display_text(t),
{
    let ghost gt = t;
    let outcome = Outcome::from_transport(t);
    let r = format_response(&outcome);
    proof {
        assert(r@ == transport_display_text(gt));
    }
    r
}

/// Formatting is deterministic: the display text is a function of the
/// outcome alone, so two renderings of the same outcome are identical.
pub proof fn lemma_format_deterministic(o: Outcome, r1: Seq<char>, r2: Seq<char>)
    requires
        r1 == display_text(o),
        r2 == display_text(o),
    ensures
        r1 == r2,
{
}

/// The decode fallback: a success whose body is not a well-formed document
/// still displays the real status code on its status line, and its body
/// section is the synthetic structured text with the fixed sentinel
/// detail, whatever the raw bytes were.
pub proof fn lemma_decode_fallback(status_code: u16, body: Vec<u8>)
    ensures
        display_text(Outcome::Success { status_code, payload: Payload::Raw(body) }) == dec_str(
            status_code as nat,
        ) + seq!['\n'] + fallback_text(status_code),
{
}

} // verus!
