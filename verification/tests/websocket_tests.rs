use servio::headers::Headers;
use servio::http::HttpVersion;
use servio::http_adapter::make_http_scope;
use servio::service::{AttachmentKey, Event, Payload, PayloadKind, ServiceError};
use servio::websocket::{Accept, Close, TextFrame, WebSocketEvent};
use servio::websocket_adapter::{
    bridge_outbound, can_upgrade, classify_first_outbound, parse_subprotocols, upgrade_response,
    wire_to_event, Empty, FirstOutbound, WireFrame, WsBridge,
};

fn upgrade_headers() -> Headers {
    let mut h = Headers::new();
    h.append(String::from("connection"), String::from("keep-alive, Upgrade"));
    h.append(String::from("upgrade"), String::from("websocket"));
    h.append(String::from("sec-websocket-version"), String::from("13"));
    h.append(
        String::from("sec-websocket-key"),
        String::from("dGhlIHNhbXBsZSBub25jZQ=="),
    );
    h
}

fn upgrade_scope(method: &str, version: HttpVersion, headers: Headers) -> servio::http::HttpScope {
    make_http_scope(
        String::from(method),
        String::from("/chat"),
        version,
        headers,
        None,
        None,
    )
}

fn ws_event(e: WebSocketEvent) -> Event {
    Event::new(String::from("websocket"), Payload::WebSocket(e))
}

#[test]
fn eligible_request_can_upgrade() {
    let scope = upgrade_scope("GET", HttpVersion::Http11, upgrade_headers());
    assert!(can_upgrade(&scope));
}

#[test]
fn post_request_cannot_upgrade() {
    let scope = upgrade_scope("POST", HttpVersion::Http11, upgrade_headers());
    assert!(!can_upgrade(&scope));
}

#[test]
fn http10_request_cannot_upgrade() {
    let scope = upgrade_scope("GET", HttpVersion::Http10, upgrade_headers());
    assert!(!can_upgrade(&scope));
}

#[test]
fn wrong_websocket_version_cannot_upgrade() {
    let mut h = upgrade_headers();
    h.insert(String::from("sec-websocket-version"), String::from("8"));
    let scope = upgrade_scope("GET", HttpVersion::Http11, h);
    assert!(!can_upgrade(&scope));
}

#[test]
fn missing_key_cannot_upgrade() {
    let mut h = Headers::new();
    h.append(String::from("connection"), String::from("Upgrade"));
    h.append(String::from("upgrade"), String::from("websocket"));
    h.append(String::from("sec-websocket-version"), String::from("13"));
    let scope = upgrade_scope("GET", HttpVersion::Http11, h);
    assert!(!can_upgrade(&scope));
}

#[test]
fn connection_token_list_is_matched_case_insensitively() {
    let mut h = upgrade_headers();
    h.insert(String::from("connection"), String::from("UPGRADE"));
    h.insert(String::from("upgrade"), String::from("WebSocket"));
    let scope = upgrade_scope("GET", HttpVersion::Http11, h);
    assert!(can_upgrade(&scope));
}

#[test]
fn subprotocols_split_on_space_and_comma() {
    let mut h = Headers::new();
    h.append(String::from("sec-websocket-protocol"), String::from("chat, superchat"));
    h.append(String::from("sec-websocket-protocol"), String::from("log"));
    let subs = parse_subprotocols(&h);
    assert_eq!(
        subs,
        vec!["chat".to_string(), "superchat".to_string(), "log".to_string()]
    );
}

#[test]
fn sample_key_derives_rfc_accept_value() {
    let resp = upgrade_response(&upgrade_headers(), &Accept::default())
        .expect("an accepted upgrade");
    assert_eq!(resp.status, 101);
    assert_eq!(
        resp.headers.get("sec-websocket-accept").expect("derived key").as_str(),
        "s3pPLMBiTxaQ9kYGzzhZRbK+xOo="
    );
    assert_eq!(resp.headers.get("connection").expect("connection").as_str(), "Upgrade");
    assert_eq!(resp.headers.get("upgrade").expect("upgrade").as_str(), "websocket");
    assert!(resp.headers.get("sec-websocket-protocol").is_none());
}

#[test]
fn chosen_subprotocol_is_announced() {
    let accept = Accept {
        subprotocol: Some(String::from("chat")),
        headers: Headers::new(),
    };
    let resp = upgrade_response(&upgrade_headers(), &accept).expect("an accepted upgrade");
    assert_eq!(
        resp.headers.get("sec-websocket-protocol").expect("subprotocol").as_str(),
        "chat"
    );
}

#[test]
fn missing_key_on_accept_is_a_configuration_error() {
    let headers = Headers::new();
    match upgrade_response(&headers, &Accept::default()) {
        Err(e) => assert_eq!(e, ServiceError::ConfigurationError),
        Ok(_) => panic!("expected a configuration error"),
    }
}

#[test]
fn first_outbound_event_decides_the_exchange() {
    let http_first = Event::new(
        String::from("http"),
        Payload::Http(servio::http::HttpEvent::ResponseStart(
            servio::http::ResponseStart {
                status: 200,
                headers: Headers::new(),
                trailers: false,
            },
        )),
    );
    match classify_first_outbound(&http_first) {
        Ok(FirstOutbound::HttpFallback) => {},
        _ => panic!("an HTTP first event declines the upgrade"),
    }
    let accept_first = ws_event(WebSocketEvent::Accept(Accept::default()));
    match classify_first_outbound(&accept_first) {
        Ok(FirstOutbound::Accepted(_)) => {},
        _ => panic!("an Accept first event proceeds"),
    }
    let text_first = ws_event(WebSocketEvent::TextFrame(TextFrame {
        data: String::from("early"),
    }));
    match classify_first_outbound(&text_first) {
        Err(e) => assert_eq!(e, ServiceError::ProtocolViolation),
        _ => panic!("a frame before Accept is a violation"),
    }
}

#[test]
fn inbound_text_frame_is_delivered_as_text_event() {
    let event = wire_to_event(WireFrame::Text(String::from("ping"))).expect("a delivered event");
    assert_eq!(event.family().as_str(), "websocket");
    match event.get(PayloadKind::WebSocket) {
        Some(Payload::WebSocket(WebSocketEvent::TextFrame(t))) => {
            assert_eq!(t.data.as_str(), "ping")
        },
        _ => panic!("expected a TextFrame event"),
    }
}

#[test]
fn inbound_close_without_body_defaults_to_1000() {
    let event = wire_to_event(WireFrame::Close(None)).expect("a delivered event");
    match event.get(PayloadKind::WebSocket) {
        Some(Payload::WebSocket(WebSocketEvent::Close(c))) => {
            assert_eq!(c.code, 1000);
            assert!(c.reason.is_none());
        },
        _ => panic!("expected a Close event"),
    }
}

#[test]
fn ping_frames_are_not_delivered() {
    assert!(wire_to_event(WireFrame::Ping(vec![1, 2])).is_none());
}

#[test]
fn close_is_forwarded_and_nothing_after_it() {
    let events = vec![
        ws_event(WebSocketEvent::TextFrame(TextFrame { data: String::from("hi") })),
        ws_event(WebSocketEvent::Close(Close {
            code: 1000,
            reason: Some(String::from("bye")),
        })),
        ws_event(WebSocketEvent::TextFrame(TextFrame { data: String::from("late") })),
    ];
    let frames = bridge_outbound(&events).expect("a legal outbound stream");
    assert_eq!(frames.len(), 2);
    match &frames[0] {
        WireFrame::Text(t) => assert_eq!(t.as_str(), "hi"),
        _ => panic!("expected a text frame"),
    }
    match &frames[1] {
        WireFrame::Close(Some((code, reason))) => {
            assert_eq!(*code, 1000);
            assert_eq!(reason.as_str(), "bye");
        },
        _ => panic!("expected a close frame"),
    }
}

#[test]
fn connect_during_bridging_is_a_protocol_violation() {
    let mut bridge = WsBridge::new();
    let connect = ws_event(WebSocketEvent::Connect(servio::websocket::Connect {}));
    match bridge.on_app_event(&connect) {
        Err(e) => assert_eq!(e, ServiceError::ProtocolViolation),
        _ => panic!("expected a protocol violation"),
    }
}

#[test]
fn http_event_during_bridging_is_a_protocol_violation() {
    let events = vec![Event::new(
        String::from("http"),
        Payload::Http(servio::http::HttpEvent::Disconnect(servio::http::Disconnect {})),
    )];
    match bridge_outbound(&events) {
        Err(e) => assert_eq!(e, ServiceError::ProtocolViolation),
        _ => panic!("expected a protocol violation"),
    }
}

#[test]
fn empty_body_is_over_before_it_begins() {
    let body = Empty {};
    assert!(body.next_frame().is_none());
    assert!(body.is_end_stream());
    assert_eq!(body.size_hint(), 0);
}

#[test]
fn websocket_scope_carries_both_attachments() {
    let mut h = upgrade_headers();
    h.append(String::from("sec-websocket-protocol"), String::from("chat"));
    let scope = servio::websocket_adapter::websocket_scope_for(upgrade_scope(
        "GET",
        HttpVersion::Http11,
        h,
    ));
    assert_eq!(scope.protocol().as_str(), "http");
    assert!(scope.get(AttachmentKey::Http).is_some());
    match scope.get(AttachmentKey::WebSocket) {
        Some(servio::service::Attachment::WebSocket(w)) => {
            assert_eq!(w.subprotocols, vec!["chat".to_string()])
        },
        _ => panic!("expected the WebSocket attachment"),
    }
}

#[test]
fn ineligible_connection_is_served_as_plain_http() {
    let mut service = servio::response::PlainTextResponse::new(
        200,
        String::from("plain"),
        Headers::new(),
    );
    let scope = upgrade_scope("POST", HttpVersion::Http11, upgrade_headers());
    match servio::websocket_adapter::serve_connection(&mut service, scope, vec![]) {
        Ok(servio::websocket_adapter::ServeOutcome::Http(t)) => {
            assert_eq!(t.status, 200);
            assert_eq!(t.body_frames, vec![b"plain".to_vec()]);
        },
        _ => panic!("expected a plain HTTP exchange"),
    }
}

#[test]
fn http_first_event_declines_an_eligible_upgrade() {
    let mut service = servio::response::PlainTextResponse::new(
        200,
        String::from("no thanks"),
        Headers::new(),
    );
    let scope = upgrade_scope("GET", HttpVersion::Http11, upgrade_headers());
    match servio::websocket_adapter::serve_connection(&mut service, scope, vec![]) {
        Ok(servio::websocket_adapter::ServeOutcome::Http(t)) => {
            assert_eq!(t.status, 200);
            assert_eq!(t.body_frames, vec![b"no thanks".to_vec()]);
        },
        _ => panic!("expected a declined upgrade"),
    }
}

#[test]
fn service_failure_fails_the_connection_unchanged() {
    let mut router: servio::router::ProtocolRouter<servio::response::StaticResponse> =
        servio::router::ProtocolRouter::new();
    let scope = upgrade_scope("GET", HttpVersion::Http11, upgrade_headers());
    match servio::websocket_adapter::serve_connection(&mut router, scope, vec![]) {
        Err(e) => assert_eq!(e, ServiceError::UnsupportedProtocol),
        _ => panic!("expected the inner failure to propagate"),
    }
}

#[test]
fn malformed_key_on_accept_is_a_configuration_error() {
    let mut h = upgrade_headers();
    h.insert(String::from("sec-websocket-key"), String::from("???"));
    match upgrade_response(&h, &Accept::default()) {
        Err(e) => assert_eq!(e, ServiceError::ConfigurationError),
        Ok(_) => panic!("a malformed key may not be answered with a handshake"),
    }
    // Right length, wrong padding: still not a client key.
    let mut h2 = upgrade_headers();
    h2.insert(
        String::from("sec-websocket-key"),
        String::from("dGhlIHNhbXBsZSBub25jZQAA"),
    );
    match upgrade_response(&h2, &Accept::default()) {
        Err(e) => assert_eq!(e, ServiceError::ConfigurationError),
        Ok(_) => panic!("a key without its padding may not be answered"),
    }
}
