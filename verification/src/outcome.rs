//! Outcomes of one HTTP execution, and the decode-fallback policy.

use vstd::prelude::*;

verus! {

/// Whether the bytes are a well-formed structured (JSON) document: exactly
/// the inputs the decoder accepts.
pub uninterp spec fn json_wf(body: Seq<u8>) -> bool;

/// The indented, human-readable rendering of the structured document the
/// bytes encode: a function of the bytes alone. Meaningful only when
/// `json_wf(body)` holds.
pub uninterp spec fn pretty_json(body: Seq<u8>) -> Seq<char>;

/// Relies on `serde_json::from_slice::<Value>`, which accepts exactly the
/// well-formed documents, and `serde_json::to_string_pretty`, which renders
/// a `Value` as indented text and cannot fail on one (`Value` maps are
/// keyed by strings). Together they re-render well-formed bytes as indented
/// text; both steps depend on the bytes alone.
#[verifier::external_body]
fn pretty_from_bytes(body: &Vec<u8>) -> (r: Option<String>)
    ensures
        r is Some <==> json_wf(body@),
        r matches Some(s) ==> s@ == pretty_json(body@),
{
    match serde_json::from_slice::<serde_json::Value>(body) {
        Ok(v) => serde_json::to_string_pretty(&v).ok(),
        Err(_) => None,
    }
}

/// What the executor read off a transport-level failure, as plain values:
/// the classification of the error and the parts of it that the message
/// mentions. The transport layer converts its own error type into this
/// before handing it over.
#[derive(Debug)]
pub enum TransportError {
    /// An HTTP-level problem, with the offending URL when one is known.
    Http { url: Option<String> },
    /// A (de)serialization problem, with its description when one exists.
    Serialization { detail: Option<String> },
    /// Too many redirects, or a redirect loop.
    Redirect,
    /// Anything else, reported by its own description.
    Other { description: String },
}

/// The user-facing message for a transport-level failure.
pub open spec fn transport_error_text(e: TransportError) -> Seq<char> {
    match e {
        TransportError::Http { url: option_url } => match option_url {
            None => "No Url given"@,
            Some(u) => "Problem requesting url: "@ + u@,
        },
        TransportError::Serialization { detail: option_detail } => match option_detail {
            None => "problem parsing information "@ + "No description available"@,
            Some(d) => "problem parsing information "@ + d@,
        },
        TransportError::Redirect => "Server redirecting too many times or making loop"@,
        TransportError::Other { description } => description@,
    }
}

impl TransportError {
    /// Render the failure as the message a `Failure` outcome will carry.
    pub fn message(&self) -> (r: String)
        ensures
            r@ == transport_error_text(*self),
    {
        match self {
            TransportError::Http { url: option_url } => match option_url {
                None => "No Url given".to_owned(),
                Some(u) => {
                    let mut r = String::new();
                    r.push_str("Problem requesting url: ");
                    r.push_str(u.as_str());
                    proof {
                        assert(r@ =~= "Problem requesting url: "@ + u@);
                    }
                    r
                },
            },
            TransportError::Serialization { detail: option_detail } => {
                let mut r = String::new();
                r.push_str("problem parsing information ");
                match option_detail {
                    None => r.push_str("No description available"),
                    Some(d) => r.push_str(d.as_str()),
                }
                proof {
                    assert(r@ =~= transport_error_text(*self));
                }
                r
            },
            TransportError::Redirect => {
                "Server redirecting too many times or making loop".to_owned()
            },
            TransportError::Other { description } => description.clone(),
        }
    }
}

/// The status codes a transport-level response can carry.
pub open spec fn valid_status(code: u16) -> bool {
    100 <= code <= 599
}

/// One received HTTP response, before any decoding: the status code and
/// the raw body bytes, as the transport handed them over.
#[derive(Debug)]
pub struct RawResponse {
    pub status_code: u16,
    pub body: Vec<u8>,
}

impl RawResponse {
    pub open spec fn wf(self) -> bool {
        valid_status(self.status_code)
    }
}

/// What a successful outcome carries: the decoded structured document,
/// held as its indented rendering, or the raw bytes when they do not
/// decode. A failed decode is never escalated to a failure.
#[derive(Debug)]
pub enum Payload {
    /// The indented rendering of the decoded document.
    Structured(String),
    /// A body that is not a well-formed structured document.
    Raw(Vec<u8>),
}

/// The result of one HTTP execution. A received response is a success
/// whatever its status code; only a transport-level failure, with no
/// response obtained, is a failure.
#[derive(Debug)]
pub enum Outcome {
    Success { status_code: u16, payload: Payload },
    Failure { message: String },
}

impl Outcome {
    pub open spec fn wf(self) -> bool {
        self matches Outcome::Success { status_code, .. } ==> valid_status(status_code)
    }

    /// Turn a transport result into the outcome it reports: an error
    /// message becomes a failure verbatim; a response becomes a success
    /// with its body decoded, falling back to the raw bytes when the body
    /// is not a well-formed document.
    pub fn from_transport(t: Result<RawResponse, String>) -> (o: Outcome)
        requires
            t matches Ok(resp) ==> resp.wf(),
        ensures
            o.wf(),
            t matches Err(m) ==> o matches Outcome::Failure { message } && message == m,
            t matches Ok(resp) ==> o matches Outcome::Success { status_code, payload }
                && status_code == resp.status_code && (if json_wf(resp.body@) {
                payload matches Payload::Structured(s) && s@ == pretty_json(resp.body@)
            } else {
                payload matches Payload::Raw(b) && b == resp.body
            }),
    {
        match t {
            Err(message) => Outcome::Failure { message },
            Ok(resp) => {
                let payload = match pretty_from_bytes(&resp.body) {
                    Some(s) => Payload::Structured(s),
                    None => Payload::Raw(resp.body),
                };
                Outcome::Success { status_code: resp.status_code, payload }
            },
        }
    }
}

} // verus!
