use servio::buffer::{Buffer, BoundedQueue};
use servio::headers::Headers;
use servio::http::HttpEvent;
use servio::logger::Logger;
use servio::response::{HtmlResponse, PlainTextResponse, StaticResponse};
use servio::router::ProtocolRouter;
use servio::service::{
    Attachment, AttachmentKey, Event, Payload, PayloadKind, Scope, Service, ServiceError,
};

fn disconnect_event(n: u16) -> Event {
    Event::new(
        String::from("websocket"),
        Payload::WebSocket(servio::websocket::WebSocketEvent::Disconnect(
            servio::websocket::Disconnect { code: n },
        )),
    )
}

fn disconnect_code(e: &Event) -> u16 {
    match e.get(PayloadKind::WebSocket) {
        Some(Payload::WebSocket(servio::websocket::WebSocketEvent::Disconnect(d))) => d.code,
        _ => panic!("expected a Disconnect event"),
    }
}

fn expect_static_response(events: &[Event], status: u16, body: &[u8]) {
    assert_eq!(events.len(), 2);
    match events[0].get(PayloadKind::Http) {
        Some(Payload::Http(HttpEvent::ResponseStart(s))) => assert_eq!(s.status, status),
        _ => panic!("expected a ResponseStart event"),
    }
    match events[1].get(PayloadKind::Http) {
        Some(Payload::Http(HttpEvent::ResponseChunk(c))) => {
            assert_eq!(c.body, body.to_vec());
            assert!(!c.more);
        },
        _ => panic!("expected a ResponseChunk event"),
    }
}

#[test]
fn router_dispatches_by_exact_protocol() {
    let mut router = ProtocolRouter::new();
    router.register(
        String::from("http"),
        PlainTextResponse::new(200, String::from("plain"), Headers::new()),
    );
    router.register(
        String::from("websocket"),
        PlainTextResponse::new(418, String::from("frames"), Headers::new()),
    );
    let scope = Scope::new(String::from("websocket"));
    let events = router.call(&scope, vec![]).expect("a routed call");
    expect_static_response(&events, 418, b"frames");
}

#[test]
fn router_rejects_unregistered_protocol() {
    let mut router = ProtocolRouter::new();
    router.register(
        String::from("http"),
        PlainTextResponse::new(200, String::from("plain"), Headers::new()),
    );
    let scope = Scope::new(String::from("gopher"));
    match router.call(&scope, vec![]) {
        Err(e) => assert_eq!(e, ServiceError::UnsupportedProtocol),
        Ok(_) => panic!("no service may run for an unregistered protocol"),
    }
}

#[test]
fn empty_router_rejects_everything() {
    let mut router: ProtocolRouter<StaticResponse> = ProtocolRouter::new();
    let scope = Scope::new(String::from("http"));
    match router.call(&scope, vec![]) {
        Err(e) => assert_eq!(e, ServiceError::UnsupportedProtocol),
        Ok(_) => panic!("no service may run on an empty router"),
    }
}

#[test]
fn bounded_queue_rejects_when_full_and_keeps_fifo_order() {
    let mut queue = BoundedQueue::new(2);
    assert!(queue.push(disconnect_event(1)).is_ok());
    assert!(queue.push(disconnect_event(2)).is_ok());
    // The producer is suspended: the rejected event comes back untouched.
    match queue.push(disconnect_event(3)) {
        Err(back) => assert_eq!(disconnect_code(&back), 3),
        Ok(_) => panic!("a full queue must reject its producer"),
    }
    // The consumer drains one; the producer resumes.
    assert_eq!(disconnect_code(&queue.pop().expect("the oldest event")), 1);
    assert!(queue.push(disconnect_event(3)).is_ok());
    assert_eq!(disconnect_code(&queue.pop().expect("the next event")), 2);
    assert_eq!(disconnect_code(&queue.pop().expect("the next event")), 3);
    assert!(queue.pop().is_none());
}

#[test]
fn pump_through_preserves_order_under_a_tiny_queue() {
    let mut queue = BoundedQueue::new(1);
    let input: Vec<Event> = (0..10).map(disconnect_event).collect();
    let out = servio::buffer::pump_through(&mut queue, input);
    assert_eq!(out.len(), 10);
    for (i, e) in out.iter().enumerate() {
        assert_eq!(disconnect_code(e), i as u16);
    }
    assert_eq!(queue.len(), 0);
}

#[test]
fn buffer_hands_the_stream_through_unchanged() {
    let inner = HtmlResponse::new(200, b"<p>ok</p>".to_vec(), Headers::new());
    let mut buffered = Buffer::with_capacity(inner, 1);
    let scope = Scope::new(String::from("http"));
    let inbound: Vec<Event> = (0..5).map(disconnect_event).collect();
    let events = buffered.call(&scope, inbound).expect("the inner answer");
    expect_static_response(&events, 200, b"<p>ok</p>");
}

#[test]
fn default_buffer_capacity_is_100() {
    let inner = PlainTextResponse::new(200, String::from("ok"), Headers::new());
    let _buffered = Buffer::new(inner);
    assert_eq!(servio::buffer::DEFAULT_BUFFER_CAPACITY, 100);
}

#[test]
fn logger_records_only_watched_scopes_and_alters_nothing() {
    let inner = PlainTextResponse::new(200, String::from("ok"), Headers::new());
    let mut logger = Logger::new(inner, AttachmentKey::Http);
    let bare = Scope::new(String::from("http"));
    assert!(logger.record_for(&bare).is_none());
    let attached = bare.with_scope(Attachment::Http(servio::http::HttpScope::default()));
    let record = logger.record_for(&attached).expect("a debug record");
    assert_eq!(record.as_str(), "scope http carries http");
    let events = logger.call(&attached, vec![]).expect("the inner answer");
    expect_static_response(&events, 200, b"ok");
}

#[test]
fn static_response_sets_length_and_type() {
    let mut service = StaticResponse::new(
        203,
        b"abcdef".to_vec(),
        String::from("application/octet-stream"),
        Headers::new(),
    );
    let scope = Scope::new(String::from("http"));
    let events = service.call(&scope, vec![]).expect("the fixed answer");
    match events[0].get(PayloadKind::Http) {
        Some(Payload::Http(HttpEvent::ResponseStart(s))) => {
            assert_eq!(s.status, 203);
            assert_eq!(s.headers.get("content-length").expect("length").as_str(), "6");
            assert_eq!(
                s.headers.get("content-type").expect("type").as_str(),
                "application/octet-stream"
            );
            assert!(!s.trailers);
        },
        _ => panic!("expected a ResponseStart event"),
    }
    expect_static_response(&events, 203, b"abcdef");
}

#[test]
fn hello_world_service_greets() {
    let mut service = servio::hello::HelloWorldService;
    let scope = Scope::new(String::from("http"));
    let events = service.call(&scope, vec![]).expect("the greeting");
    assert_eq!(events.len(), 1);
    match events[0].get(PayloadKind::Http) {
        Some(Payload::Http(HttpEvent::ResponseChunk(c))) => {
            assert_eq!(c.body, b"Hello, world!".to_vec());
            assert!(!c.more);
        },
        _ => panic!("expected the greeting chunk"),
    }
}

#[test]
fn registering_a_protocol_again_replaces_the_route() {
    let mut router = ProtocolRouter::new();
    router.register(
        String::from("http"),
        PlainTextResponse::new(200, String::from("first"), Headers::new()),
    );
    router.register(
        String::from("http"),
        PlainTextResponse::new(200, String::from("second"), Headers::new()),
    );
    let scope = Scope::new(String::from("http"));
    let events = router.call(&scope, vec![]).expect("a routed call");
    expect_static_response(&events, 200, b"second");
}

#[test]
fn routing_is_stable_across_calls() {
    let mut router = ProtocolRouter::new();
    router.register(
        String::from("http"),
        PlainTextResponse::new(200, String::from("web"), Headers::new()),
    );
    router.register(
        String::from("websocket"),
        PlainTextResponse::new(200, String::from("socket"), Headers::new()),
    );
    let http_scope = Scope::new(String::from("http"));
    let ws_scope = Scope::new(String::from("websocket"));
    for _ in 0..3 {
        let events = router.call(&http_scope, vec![]).expect("a routed call");
        expect_static_response(&events, 200, b"web");
        let events = router.call(&ws_scope, vec![]).expect("a routed call");
        expect_static_response(&events, 200, b"socket");
    }
}
