//! The submission lifecycle: guard, bridge, and the scenarios a stub
//! executor can drive without any network.

use poor_postman::bridge::Bridge;
use poor_postman::coordinator::{Coordinator, Request, SubmitAction};
use poor_postman::format::worker_message;
use poor_postman::method::Method;
use poor_postman::outcome::RawResponse;

/// A stub executor for the happy path: a received response with a
/// structured body, whatever the request.
fn stub_ok(_req: &Request) -> Result<RawResponse, String> {
    Ok(RawResponse { status_code: 200, body: b"{\"ping\":\"pong\"}".to_vec() })
}

/// A stub executor for the transport-failure path.
fn stub_fail(_req: &Request) -> Result<RawResponse, String> {
    Err(String::from("connection refused"))
}

/// Run the worker's part synchronously: execute the stub and push the one
/// owed message through the bridge.
fn run_worker(
    req: &Request,
    bridge: &mut Bridge,
    executor: fn(&Request) -> Result<RawResponse, String>,
) {
    let message = worker_message(executor(req));
    bridge.send(message);
}

#[test]
fn get_scenario_displays_pretty_body_and_clears_guard() {
    let mut coordinator = Coordinator::new();
    let mut bridge = Bridge::new();
    let action = coordinator.submit(
        &mut bridge,
        "GET",
        String::from("http://example.test/ok"),
        Vec::new(),
        None,
    );
    let req = match action {
        SubmitAction::Spawn(req) => req,
        _ => panic!("a GET submission must be admitted"),
    };
    assert_eq!(req.method, Method::Get);
    assert_eq!(req.url, "http://example.test/ok");
    assert_eq!(req.body, None);
    assert!(coordinator.is_in_flight());

    run_worker(&req, &mut bridge, stub_ok);
    let shown = coordinator.deliver(&mut bridge).expect("one message is owed");
    assert_eq!(shown, "200\n{\n  \"ping\": \"pong\"\n}");
    assert!(!coordinator.is_in_flight());
    assert_eq!(bridge.len(), 0);
}

#[test]
fn post_scenario_displays_transport_failure() {
    let mut coordinator = Coordinator::new();
    let mut bridge = Bridge::new();
    let action = coordinator.submit(
        &mut bridge,
        "POST",
        String::from("http://example.test/fail"),
        Vec::new(),
        Some(b"{\"k\":\"v\"}".to_vec()),
    );
    let req = match action {
        SubmitAction::Spawn(req) => req,
        _ => panic!("a POST submission must be admitted"),
    };
    assert_eq!(req.method, Method::Post);
    assert_eq!(req.body, Some(b"{\"k\":\"v\"}".to_vec()));

    run_worker(&req, &mut bridge, stub_fail);
    let shown = coordinator.deliver(&mut bridge).expect("one message is owed");
    assert_eq!(shown, "Error: connection refused");
    assert!(!coordinator.is_in_flight());
}

#[test]
fn unrecognized_verb_spawns_nothing_and_reports_invalid_method() {
    let mut coordinator = Coordinator::new();
    let mut bridge = Bridge::new();
    let action = coordinator.submit(
        &mut bridge,
        "PATCH",
        String::from("http://example.test/x"),
        Vec::new(),
        None,
    );
    assert!(matches!(action, SubmitAction::ErrorReported));
    assert_eq!(bridge.len(), 1);
    let shown = coordinator.deliver(&mut bridge).expect("the error text is owed");
    assert_eq!(shown, "Error: invalid method");
    assert!(!coordinator.is_in_flight());
}

#[test]
fn second_submission_before_completion_is_dropped() {
    let mut coordinator = Coordinator::new();
    let mut bridge = Bridge::new();
    let action = coordinator.submit(
        &mut bridge,
        "GET",
        String::from("http://example.test/first"),
        Vec::new(),
        None,
    );
    let req = match action {
        SubmitAction::Spawn(req) => req,
        _ => panic!("the first submission must be admitted"),
    };

    // fired back-to-back, before the first completes: dropped whole
    let second = coordinator.submit(
        &mut bridge,
        "GET",
        String::from("http://example.test/second"),
        Vec::new(),
        None,
    );
    assert!(matches!(second, SubmitAction::Ignored));
    assert!(coordinator.is_in_flight());
    assert_eq!(bridge.len(), 0);

    // even an unrecognized verb is dropped without queueing its error
    let third = coordinator.submit(
        &mut bridge,
        "PATCH",
        String::from("http://example.test/third"),
        Vec::new(),
        None,
    );
    assert!(matches!(third, SubmitAction::Ignored));
    assert_eq!(bridge.len(), 0);

    // only one message ever arrives for the pair
    run_worker(&req, &mut bridge, stub_ok);
    assert_eq!(bridge.len(), 1);
    assert!(coordinator.deliver(&mut bridge).is_some());
    assert!(coordinator.deliver(&mut bridge).is_none());
    assert!(!coordinator.is_in_flight());
}

#[test]
fn bridge_delivers_in_send_order() {
    let mut bridge = Bridge::new();
    bridge.send(String::from("first"));
    bridge.send(String::from("second"));
    bridge.send(String::from("third"));
    assert_eq!(bridge.len(), 3);
    let mut coordinator = Coordinator::new();
    assert_eq!(coordinator.deliver(&mut bridge).as_deref(), Some("first"));
    assert_eq!(coordinator.deliver(&mut bridge).as_deref(), Some("second"));
    assert_eq!(coordinator.deliver(&mut bridge).as_deref(), Some("third"));
    assert_eq!(coordinator.deliver(&mut bridge), None);
}

#[test]
fn delivery_on_an_empty_bridge_changes_nothing() {
    let mut coordinator = Coordinator::new();
    let mut bridge = Bridge::new();
    assert_eq!(coordinator.deliver(&mut bridge), None);
    assert!(!coordinator.is_in_flight());
}
