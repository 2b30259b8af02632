//! The request coordinator: the single-permit submission guard, request
//! construction, and the delivery handler that clears the guard.

use crate::bridge::Bridge;
use crate::format::format_response;
use crate::method::{method_of_text, spec_carries_payload, Method};
use crate::outcome::Outcome;
use vstd::prelude::*;

verus! {

/// One HTTP request, constructed at submission time and handed whole to
/// the worker; it does not outlive the worker.
pub struct Request {
    pub method: Method,
    /// Free text, not validated here; the transport judges it.
    pub url: String,
    /// Header pairs in order. Names are matched case-insensitively by the
    /// transport; avoiding duplicates is the caller's responsibility.
    pub headers: Vec<(String, String)>,
    /// Structured body text, present only when the method carries a
    /// payload. Not validated here: text that is not well-formed is passed
    /// through for the remote side or the decode fallback to judge.
    pub body: Option<Vec<u8>>,
}

/// That `r` is `user` with the transport-required headers appended: the
/// tool's user agent, the accept header asking for structured responses,
/// and, exactly when a payload will be sent, its content type.
pub open spec fn headers_composed(
    user: Seq<(String, String)>,
    has_body: bool,
    r: Seq<(String, String)>,
) -> bool {
    &&& r.len() == user.len() + (if has_body {
        3int
    } else {
        2int
    })
    &&& (forall|i: int| 0 <= i < user.len() ==> r[i] == user[i])
    &&& r[user.len() as int].0@ == "User-Agent"@
    &&& r[user.len() as int].1@ == "poor-postman"@
    &&& r[user.len() as int + 1].0@ == "Accept"@
    &&& r[user.len() as int + 1].1@ == "application/json"@
    &&& has_body ==> (r[user.len() as int + 2].0@ == "Content-Type"@ && r[user.len() as int + 2].1@
        == "application/json"@)
}

/// Append the transport-required headers to the caller's pairs.
pub fn compose_headers(user: Vec<(String, String)>, has_body: bool) -> (r: Vec<(String, String)>)
    ensures
        headers_composed(user@, has_body, r@),
{
    let mut r = user;
    r.push(("User-Agent".to_owned(), "poor-postman".to_owned()));
    r.push(("Accept".to_owned(), "application/json".to_owned()));
    if has_body {
        r.push(("Content-Type".to_owned(), "application/json".to_owned()));
    }
    r
}

impl Request {
    /// The body is present only when the method carries a payload.
    pub open spec fn wf(self) -> bool {
        self.body is Some ==> spec_carries_payload(self.method)
    }

    /// Construct the request for one admitted submission: keep the body
    /// only when the verb carries a payload, and append the required
    /// headers to the caller's.
    pub fn new(
        method: Method,
        url: String,
        headers: Vec<(String, String)>,
        body: Option<Vec<u8>>,
    ) -> (r: Request)
        ensures
            r.wf(),
            r.method == method,
            r.url == url,
            r.body == (if spec_carries_payload(method) {
                body
            } else {
                None::<Vec<u8>>
            }),
            headers_composed(headers@, r.body is Some, r.headers@),
    {
        let kept: Option<Vec<u8>> = if method.carries_payload() {
            body
        } else {
            None
        };
        let has_body = kept.is_some();
        Request { method, url, headers: compose_headers(headers, has_body), body: kept }
    }
}

/// What one `submit` call decided; the caller performs the action.
pub enum SubmitAction {
    /// The submission was admitted: run this request on a fresh worker,
    /// which owes the bridge exactly one message.
    Spawn(Request),
    /// The verb text was not recognized: no worker is owed, and the error
    /// text is already queued on the bridge for the display path.
    ErrorReported,
    /// A request was already in flight: the submission is dropped whole.
    Ignored,
}

/// The display text reporting an unrecognized verb.
pub open spec fn invalid_method_text() -> Seq<char> {
    "Error: "@ + "invalid method"@
}

/// The coordinator, owned by the control loop: it holds the in-flight
/// guard, the single source of truth for whether a new submission may
/// proceed.
pub struct Coordinator {
    in_flight: bool,
}

/// How one `submit` call relates the guard and the pending messages
/// before it to those after it. A set guard drops the submission whole;
/// an unrecognized verb queues the error text and spawns nothing; a
/// recognized verb is admitted and sets the guard.
pub open spec fn submit_post(
    pre: Coordinator,
    post: Coordinator,
    pre_q: Seq<Seq<char>>,
    post_q: Seq<Seq<char>>,
    method_text: Seq<char>,
    a: SubmitAction,
) -> bool {
    if pre.in_flight() {
        &&& post == pre
        &&& post_q == pre_q
        &&& a is Ignored
    } else if method_of_text(method_text) is None {
        &&& post.in_flight()
        &&& post_q == pre_q.push(invalid_method_text())
        &&& a is ErrorReported
    } else {
        &&& post.in_flight()
        &&& post_q == pre_q
        &&& a is Spawn
    }
}

impl Coordinator {
    /// Whether a request is in flight.
    pub closed spec fn in_flight(self) -> bool {
        self.in_flight
    }

    /// A fresh coordinator: nothing in flight.
    pub fn new() -> (c: Coordinator)
        ensures
            !c.in_flight(),
    {
        Coordinator { in_flight: false }
    }

    /// Whether a request is in flight.
    pub fn is_in_flight(&self) -> (r: bool)
        ensures
            r == self.in_flight(),
    {
        self.in_flight
    }

    /// One submission. If the guard is set the call is a no-op. Otherwise
    /// the guard is set and the verb text is judged before any work
    /// starts: unrecognized text queues the error display text on the
    /// bridge, and recognized text yields the request to run on a fresh
    /// worker.
    pub fn submit(
        &mut self,
        bridge: &mut Bridge,
        method_text: &str,
        url: String,
        headers: Vec<(String, String)>,
        body: Option<Vec<u8>>,
    ) -> (a: SubmitAction)
        ensures
            submit_post(*old(self), *final(self), old(bridge)@, final(bridge)@, method_text@, a),
            a matches SubmitAction::Spawn(req) ==> {
                &&& req.wf()
                &&& Some(req.method) == method_of_text(method_text@)
                &&& req.url == url
                &&& req.body == (if (method_of_text(method_text@) matches Some(m)
                    && spec_carries_payload(m)) {
                    body
                } else {
                    None::<Vec<u8>>
                })
                &&& headers_composed(headers@, req.body is Some, req.headers@)
            },
    {
        if self.in_flight {
            return SubmitAction::Ignored;
        }
        self.in_flight = true;
        match Method::from_text(method_text) {
            Err(_) => {
                let message = "invalid method".to_owned();
                let text = format_response(&Outcome::Failure { message });
                bridge.send(text);
                SubmitAction::ErrorReported
            },
            Ok(method) => SubmitAction::Spawn(Request::new(method, url, headers, body)),
        }
    }

    /// The control loop's handler for one arriving message: dequeue the
    /// oldest pending message, clear the in-flight guard, and hand the
    /// text back to be applied to the result area. This is the only place
    /// the guard is cleared, so every admitted submission pairs with
    /// exactly one clearing.
    pub fn deliver(&mut self, bridge: &mut Bridge) -> (r: Option<String>)
        ensures
            old(bridge)@.len() == 0 ==> {
                &&& r is None
                &&& *final(self) == *old(self)
                &&& final(bridge)@ == old(bridge)@
            },
            old(bridge)@.len() > 0 ==> {
                &&& (r matches Some(m) && m@ == old(bridge)@[0])
                &&& !final(self).in_flight()
                &&& final(bridge)@ == old(bridge)@.drop_first()
            },
    {
        match bridge.recv() {
            None => None,
            Some(m) => {
                self.in_flight = false;
                Some(m)
            },
        }
    }
}

/// While a request is in flight, a submission is a no-op: the guard and
/// the pending messages are unchanged and no worker is asked for,
/// whatever the verb text — so at most one worker exists at any instant.
pub proof fn lemma_submit_guarded_no_op(
    pre: Coordinator,
    post: Coordinator,
    pre_q: Seq<Seq<char>>,
    post_q: Seq<Seq<char>>,
    method_text: Seq<char>,
    a: SubmitAction,
)
    requires
        pre.in_flight(),
        submit_post(pre, post, pre_q, post_q, method_text, a),
    ensures
        post == pre,
        post_q == pre_q,
        a is Ignored,
        !(a is Spawn),
{
}

/// An unrecognized verb never asks for a worker; when the guard was
/// clear, exactly one message joins the queue, and it is exactly the
/// fixed `Error: ` prefix followed by the invalid-method note.
pub proof fn lemma_submit_unrecognized(
    pre: Coordinator,
    post: Coordinator,
    pre_q: Seq<Seq<char>>,
    post_q: Seq<Seq<char>>,
    method_text: Seq<char>,
    a: SubmitAction,
)
    requires
        method_of_text(method_text) is None,
        submit_post(pre, post, pre_q, post_q, method_text, a),
    ensures
        !(a is Spawn),
        !pre.in_flight() ==> post_q == pre_q.push("Error: "@ + "invalid method"@),
        pre.in_flight() ==> post_q == pre_q,
{
}

/// Two submissions fired back-to-back, before anything is delivered: the
/// first is admitted, the second is dropped whole, and the pair leaves
/// the pending messages untouched — the one message for the pair is the
/// one the first submission's worker will send.
pub proof fn lemma_second_submission_dropped(
    c0: Coordinator,
    c1: Coordinator,
    c2: Coordinator,
    q0: Seq<Seq<char>>,
    q1: Seq<Seq<char>>,
    q2: Seq<Seq<char>>,
    text1: Seq<char>,
    text2: Seq<char>,
    a1: SubmitAction,
    a2: SubmitAction,
)
    requires
        !c0.in_flight(),
        method_of_text(text1) is Some,
        submit_post(c0, c1, q0, q1, text1, a1),
        submit_post(c1, c2, q1, q2, text2, a2),
    ensures
        a1 is Spawn,
        a2 is Ignored,
        c2 == c1,
        q2 == q0,
{
}

} // verus!
