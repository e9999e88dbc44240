use servio::headers::Headers;
use servio::hello::Hello;
use servio::http::{
    HttpEvent, HttpVersion, ResponseChunk, ResponseStart, ResponseTrailer,
};
use servio::http_adapter::{
    inbound_events, make_http_scope, render_response, serve_http, HttpInbound, HttpOutbound,
    InboundState, OutboundAction,
};
use servio::service::{Event, Payload, PayloadKind, ServiceError};

fn http_event(e: HttpEvent) -> Event {
    Event::new(String::from("http"), Payload::Http(e))
}

fn start_event(status: u16, trailers: bool) -> Event {
    http_event(HttpEvent::ResponseStart(ResponseStart {
        status,
        headers: Headers::new(),
        trailers,
    }))
}

fn chunk_event(body: &[u8], more: bool) -> Event {
    http_event(HttpEvent::ResponseChunk(ResponseChunk { body: body.to_vec(), more }))
}

fn expect_request_chunk(e: &Event, body: &[u8], more: bool) {
    match e.get(PayloadKind::Http) {
        Some(Payload::Http(HttpEvent::RequestChunk(c))) => {
            assert_eq!(c.body, body.to_vec());
            assert_eq!(c.more, more);
        },
        _ => panic!("expected a RequestChunk event"),
    }
}

#[test]
fn inbound_frames_become_chunks_then_final_empty_chunk() {
    let frames = vec![b"a".to_vec(), b"b".to_vec()];
    let events = inbound_events(frames);
    assert_eq!(events.len(), 3);
    expect_request_chunk(&events[0], b"a", true);
    expect_request_chunk(&events[1], b"b", true);
    expect_request_chunk(&events[2], b"", false);
}

#[test]
fn inbound_machine_emits_nothing_after_completion() {
    let mut machine = HttpInbound::new();
    assert_eq!(machine.state, InboundState::AwaitingBody);
    assert!(machine.on_data(b"x".to_vec()).is_some());
    assert!(machine.on_end().is_some());
    assert_eq!(machine.state, InboundState::Complete);
    assert!(machine.on_data(b"y".to_vec()).is_none());
    assert!(machine.on_end().is_none());
}

#[test]
fn outbound_renders_status_single_frame_and_end_of_stream() {
    let events = vec![start_event(200, false), chunk_event(b"hi", false)];
    let resp = render_response(&events).expect("a legal outbound stream");
    assert_eq!(resp.status, 200);
    assert_eq!(resp.body_frames, vec![b"hi".to_vec()]);
    assert!(resp.trailer_frames.is_empty());
    assert!(resp.end_of_stream);
}

#[test]
fn outbound_without_response_start_is_a_protocol_violation() {
    let events = vec![chunk_event(b"hi", false)];
    match render_response(&events) {
        Err(e) => assert_eq!(e, ServiceError::ProtocolViolation),
        Ok(_) => panic!("expected a protocol violation"),
    }
}

#[test]
fn outbound_keeps_body_frames_in_order() {
    let events = vec![
        start_event(201, false),
        chunk_event(b"one", true),
        chunk_event(b"two", true),
        chunk_event(b"", false),
    ];
    let resp = render_response(&events).expect("a legal outbound stream");
    assert_eq!(resp.status, 201);
    assert_eq!(resp.body_frames, vec![b"one".to_vec(), b"two".to_vec(), b"".to_vec()]);
    assert!(resp.end_of_stream);
}

#[test]
fn outbound_with_declared_trailers_ends_after_trailers() {
    let mut trailer = Headers::new();
    trailer.append(String::from("checksum"), String::from("abc"));
    let events = vec![
        start_event(200, true),
        chunk_event(b"payload", false),
        http_event(HttpEvent::ResponseTrailer(ResponseTrailer { headers: trailer, more: false })),
    ];
    let resp = render_response(&events).expect("a legal outbound stream");
    assert_eq!(resp.body_frames, vec![b"payload".to_vec()]);
    assert_eq!(resp.trailer_frames.len(), 1);
    assert_eq!(
        resp.trailer_frames[0].get("checksum").expect("trailer header").as_str(),
        "abc"
    );
    assert!(resp.end_of_stream);
}

#[test]
fn outbound_body_not_ended_leaves_stream_open() {
    let events = vec![start_event(200, false), chunk_event(b"hi", true)];
    let resp = render_response(&events).expect("a legal outbound stream");
    assert!(!resp.end_of_stream);
}

#[test]
fn outbound_event_after_completion_is_a_protocol_violation() {
    let events = vec![
        start_event(200, false),
        chunk_event(b"hi", false),
        chunk_event(b"late", false),
    ];
    match render_response(&events) {
        Err(e) => assert_eq!(e, ServiceError::ProtocolViolation),
        Ok(_) => panic!("expected a protocol violation"),
    }
}

#[test]
fn outbound_second_response_start_is_a_protocol_violation() {
    let events = vec![start_event(200, false), start_event(500, false)];
    match render_response(&events) {
        Err(e) => assert_eq!(e, ServiceError::ProtocolViolation),
        Ok(_) => panic!("expected a protocol violation"),
    }
}

#[test]
fn outbound_machine_reports_actions() {
    let mut machine = HttpOutbound::new();
    match machine.on_event(&start_event(404, false)) {
        Ok(OutboundAction::Start { status, .. }) => assert_eq!(status, 404),
        _ => panic!("expected the header section action"),
    }
    assert!(!machine.is_end_stream());
    match machine.on_event(&chunk_event(b"gone", false)) {
        Ok(OutboundAction::BodyFrame { body }) => assert_eq!(body, b"gone".to_vec()),
        _ => panic!("expected a body frame action"),
    }
    assert!(machine.is_end_stream());
}

#[test]
fn serve_http_runs_a_whole_exchange() {
    let mut service = servio::response::PlainTextResponse::new(
        200,
        String::from("hello"),
        Headers::new(),
    );
    let scope = make_http_scope(
        String::from("GET"),
        String::from("/"),
        HttpVersion::Http11,
        Headers::new(),
        None,
        None,
    );
    let resp = serve_http(&mut service, scope, vec![]).expect("a rendered response");
    assert_eq!(resp.status, 200);
    assert_eq!(resp.body_frames, vec![b"hello".to_vec()]);
    assert_eq!(
        resp.headers.get("content-length").expect("content-length").as_str(),
        "5"
    );
    assert_eq!(
        resp.headers.get("content-type").expect("content-type").as_str(),
        "text/plain"
    );
    assert!(resp.end_of_stream);
}

#[test]
fn hello_service_answers_one_open_chunk_stream() {
    // The greeting stream carries no ResponseStart: rendered as a raw
    // response it is a protocol violation, exactly as an adapter must
    // treat it.
    let mut service = Hello {};
    let scope = make_http_scope(
        String::from("GET"),
        String::from("/"),
        HttpVersion::Http11,
        Headers::new(),
        None,
        None,
    );
    match serve_http(&mut service, scope, vec![]) {
        Err(e) => assert_eq!(e, ServiceError::ProtocolViolation),
        Ok(_) => panic!("expected a protocol violation"),
    }
}

#[test]
fn empty_outbound_stream_is_a_protocol_violation() {
    let events: Vec<Event> = vec![];
    match render_response(&events) {
        Err(e) => assert_eq!(e, ServiceError::ProtocolViolation),
        Ok(_) => panic!("a stream with no response may not render"),
    }
}

#[test]
fn service_with_no_outbound_events_fails_the_exchange() {
    let mut service = servio::response::StaticResponse::default();
    let scope = make_http_scope(
        String::from("GET"),
        String::from("/"),
        HttpVersion::Http11,
        Headers::new(),
        None,
        None,
    );
    match serve_http(&mut service, scope, vec![]) {
        Err(e) => assert_eq!(e, ServiceError::ProtocolViolation),
        Ok(_) => panic!("an empty outbound stream may not render"),
    }
}
