use tokio_request::{
    EncodeError, Header, Method, Request, RequestError, Response, Submission, TransportError,
    TransportEvent, TransportKind, Url,
};

fn home() -> Url {
    Url::parse("http://example.com/").unwrap()
}

fn ok_event() -> TransportEvent {
    TransportEvent::Completed {
        status: 200,
        headers: vec![Header::new("Content-Type", "text/plain")],
        body: b"ok".to_vec(),
    }
}

fn refused() -> TransportError {
    TransportError { kind: TransportKind::Connect, message: String::from("connection refused") }
}

#[test]
fn send_starts_pending_with_the_finalized_request() {
    let r = Request::new(&home(), Method::Get).param("a", "1").param("b", "2 c");
    let s = r.send();
    assert!(!s.is_resolved());
    assert_eq!(s.outcome(), None);
    let wire = s.wire().unwrap();
    assert_eq!(wire.method, "GET");
    assert_eq!(wire.target, "http://example.com/?a=1&b=2%20c");
    assert_eq!(wire.body, None);
}

#[test]
fn get_with_params_resolves_to_the_response_of_the_transport() {
    let mut s = Request::new(&home(), Method::Get).param("a", "1").param("b", "2 c").send();
    assert_eq!(s.wire().unwrap().target, "http://example.com/?a=1&b=2%20c");
    assert_eq!(s.wire().unwrap().body, None);
    s.resolve(ok_event());
    let response = s.into_outcome().unwrap().unwrap();
    assert!(response.is_success());
    assert_eq!(response.body_text(), Ok("ok"));
    assert_eq!(response.header("Content-Type"), Some("text/plain"));
}

#[test]
fn a_connect_failure_resolves_to_a_transport_error() {
    let mut s = Request::new(&home(), Method::Get).send();
    s.resolve(TransportEvent::Failed(refused()));
    assert!(s.is_resolved());
    assert_eq!(s.wire(), None);
    assert_eq!(s.into_outcome(), Some(Err(RequestError::Transport(refused()))));
}

#[test]
fn timeouts_and_protocol_failures_are_transport_errors_too() {
    for kind in [TransportKind::Timeout, TransportKind::Protocol] {
        let e = TransportError { kind, message: String::from("failed") };
        let mut s = Request::new(&home(), Method::Post).send();
        s.resolve(TransportEvent::Failed(e.clone()));
        assert_eq!(s.outcome(), Some(&Err(RequestError::Transport(e))));
    }
}

#[test]
fn a_build_error_resolves_at_once() {
    let e = EncodeError { message: String::from("bad value") };
    let s = Request::new(&home(), Method::Post).json(Err(e.clone())).send();
    assert!(s.is_resolved());
    assert_eq!(s.wire(), None);
    assert_eq!(s.outcome(), Some(&Err(RequestError::Build(e))));
}

#[test]
fn a_build_error_is_not_replaced_by_a_later_event() {
    let e = EncodeError { message: String::from("bad value") };
    let mut s = Request::new(&home(), Method::Post).json(Err(e.clone())).send();
    s.resolve(ok_event());
    assert_eq!(s.into_outcome(), Some(Err(RequestError::Build(e))));
}

#[test]
fn the_first_outcome_is_final() {
    let mut s = Request::new(&home(), Method::Get).send();
    s.resolve(TransportEvent::Failed(refused()));
    s.resolve(ok_event());
    assert_eq!(s.outcome(), Some(&Err(RequestError::Transport(refused()))));

    let mut t = Request::new(&home(), Method::Get).send();
    t.resolve(ok_event());
    t.resolve(TransportEvent::Failed(refused()));
    let expected = Response::decode(200, vec![Header::new("Content-Type", "text/plain")], b"ok".to_vec());
    assert_eq!(t.outcome(), Some(&Ok(expected)));
}

#[test]
fn the_outcome_reads_the_same_every_time() {
    let mut s = Request::new(&home(), Method::Get).send();
    s.resolve(ok_event());
    let first = format!("{:?}", s.outcome());
    let second = format!("{:?}", s.outcome());
    assert_eq!(first, second);
}

#[test]
fn any_status_and_any_bytes_make_a_response() {
    let mut s = Request::new(&home(), Method::Get).send();
    s.resolve(TransportEvent::Completed { status: 999, headers: Vec::new(), body: vec![0xFF] });
    let response = s.into_outcome().unwrap().unwrap();
    assert_eq!(response.status_code(), 999);
    assert!(!response.is_success());
    assert!(response.body_text().is_err());
    assert_eq!(response.body_bytes(), &[0xFF]);
}

#[test]
fn a_submission_can_be_built_in_either_state() {
    let s = Submission::Resolved(Err(RequestError::Transport(refused())));
    assert!(s.is_resolved());
    let wire = Request::new(&home(), Method::Get).finalize().unwrap();
    let p = Submission::Pending(wire.clone());
    assert_eq!(p.wire(), Some(&wire));
    assert_eq!(p.into_outcome(), None);
}
