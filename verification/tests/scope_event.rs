use servio::http::HttpScope;
use servio::service::{Attachment, AttachmentKey, Event, Payload, PayloadKind, Scope};
use servio::websocket::WebSocketScope;

fn http_attachment(method: &str) -> Attachment {
    let mut scope = HttpScope::default();
    scope.method = String::from(method);
    Attachment::Http(scope)
}

fn ws_attachment(subprotocols: Vec<&str>) -> Attachment {
    Attachment::WebSocket(WebSocketScope {
        subprotocols: subprotocols.into_iter().map(String::from).collect(),
    })
}

#[test]
fn get_on_fresh_scope_is_none() {
    let scope = Scope::new(String::from("http"));
    assert!(scope.get(AttachmentKey::Http).is_none());
    assert!(scope.get(AttachmentKey::WebSocket).is_none());
    assert!(scope.get_ref(AttachmentKey::Http).is_none());
}

#[test]
fn get_of_key_never_inserted_is_none() {
    let scope = Scope::new(String::from("http")).with_scope(http_attachment("GET"));
    assert!(scope.get(AttachmentKey::WebSocket).is_none());
}

#[test]
fn insert_then_get_returns_inserted_value() {
    let mut scope = Scope::new(String::from("http"));
    let prior = scope.insert(http_attachment("POST"));
    assert!(prior.is_none());
    match scope.get(AttachmentKey::Http) {
        Some(Attachment::Http(h)) => assert_eq!(h.method.as_str(), "POST"),
        _ => panic!("expected the inserted HTTP attachment"),
    }
}

#[test]
fn second_insert_returns_prior_value() {
    let mut scope = Scope::new(String::from("http"));
    assert!(scope.insert(http_attachment("GET")).is_none());
    match scope.insert(http_attachment("PUT")) {
        Some(Attachment::Http(h)) => assert_eq!(h.method.as_str(), "GET"),
        _ => panic!("expected the prior HTTP attachment"),
    }
    match scope.get(AttachmentKey::Http) {
        Some(Attachment::Http(h)) => assert_eq!(h.method.as_str(), "PUT"),
        _ => panic!("expected the replacing HTTP attachment"),
    }
}

#[test]
fn attachments_keep_their_own_keys() {
    let mut scope = Scope::new(String::from("http"));
    scope.insert(http_attachment("GET"));
    scope.insert(ws_attachment(vec!["chat", "log"]));
    match scope.get(AttachmentKey::Http) {
        Some(Attachment::Http(h)) => assert_eq!(h.method.as_str(), "GET"),
        _ => panic!("HTTP attachment lost"),
    }
    match scope.get(AttachmentKey::WebSocket) {
        Some(Attachment::WebSocket(w)) => {
            assert_eq!(w.subprotocols, vec!["chat".to_string(), "log".to_string()])
        },
        _ => panic!("WebSocket attachment lost"),
    }
}

#[test]
fn remove_returns_value_and_leaves_key_empty() {
    let mut scope = Scope::new(String::from("http"));
    scope.insert(http_attachment("GET"));
    match scope.remove(AttachmentKey::Http) {
        Some(Attachment::Http(h)) => assert_eq!(h.method.as_str(), "GET"),
        _ => panic!("expected the removed HTTP attachment"),
    }
    assert!(scope.get(AttachmentKey::Http).is_none());
    assert!(scope.remove(AttachmentKey::Http).is_none());
}

#[test]
fn with_protocol_keeps_attachments() {
    let scope = Scope::new(String::from("http"))
        .with_scope(http_attachment("GET"))
        .with_protocol(String::from("websocket"));
    assert_eq!(scope.protocol().as_str(), "websocket");
    assert!(scope.get(AttachmentKey::Http).is_some());
}

#[test]
fn event_family_and_payload_lookup() {
    let event = Event::new(
        String::from("http"),
        Payload::Http(servio::http::HttpEvent::Disconnect(servio::http::Disconnect {})),
    );
    assert_eq!(event.family().as_str(), "http");
    assert!(event.get(PayloadKind::Http).is_some());
    assert!(event.get(PayloadKind::WebSocket).is_none());
    assert!(event.get_ref(PayloadKind::Http).is_some());
    assert!(event.get_ref(PayloadKind::WebSocket).is_none());
}

#[test]
fn event_defaults_match_the_vocabulary() {
    let request = servio::http::RequestChunk::default();
    assert!(request.body.is_empty());
    assert!(!request.more);
    let start = servio::http::ResponseStart::default();
    assert_eq!(start.status, 200);
    assert!(!start.trailers);
    let close = servio::websocket::Close::default();
    assert_eq!(close.code, 1000);
    assert!(close.reason.is_none());
    let gone = servio::websocket::Disconnect::default();
    assert_eq!(gone.code, 1005);
    let accept = servio::websocket::Accept::default();
    assert!(accept.subprotocol.is_none());
    assert_eq!(accept.headers.len(), 0);
}

#[test]
fn cloned_scopes_and_events_carry_the_same_values() {
    let event = Event::new(
        String::from("http"),
        Payload::Http(servio::http::HttpEvent::RequestChunk(servio::http::RequestChunk {
            body: b"abc".to_vec(),
            more: true,
        })),
    );
    let copy = event.clone();
    assert_eq!(copy.family().as_str(), "http");
    match copy.get(PayloadKind::Http) {
        Some(Payload::Http(servio::http::HttpEvent::RequestChunk(c))) => {
            assert_eq!(c.body, b"abc".to_vec());
            assert!(c.more);
        },
        _ => panic!("expected the cloned chunk"),
    }
}
