//! The WebSocket adapter: upgrade eligibility, handshake derivation, and
//! the full-duplex bridge between events and wire frames.

use vstd::prelude::*;

use crate::headers::{find_value, Headers};
use crate::http::{HttpScope, HttpScopeView};
use crate::http_adapter::{render_outbound, render_response, TransportResponse};
use crate::service::{
    Attachment, AttachmentKey, AttachmentView, Event, EventView, Payload, PayloadView, Scope,
    ScopeView, Service, ServiceError,
};
use crate::websocket::{Connect, WebSocketScope, WebSocketScopeView};
use crate::strutil::{eq_ignore_case, has_token, tokens_of};
use crate::websocket::{
    event_websocket, Accept, AcceptView, BinaryFrame, Close, TextFrame, WebSocketEvent,
    WebSocketEventView,
};

verus! {

// ------------------------------------------------------------------
// Eligibility.
// ------------------------------------------------------------------

/// Whether a request offers a WebSocket upgrade: method GET, version at
/// least HTTP/1.1, a `Connection` token `upgrade`, an `Upgrade` header
/// equal to `websocket` (both ignoring case), `Sec-WebSocket-Version`
/// exactly 13, and a `Sec-WebSocket-Key` present.
pub open spec fn upgrade_eligible(s: HttpScopeView) -> bool {
    &&& s.method == "GET"@
    &&& s.version.spec_at_least_http11()
    &&& (match find_value(s.headers, "connection"@) {
        Some(v) => has_token(v, "upgrade"@),
        None => false,
    })
    &&& (match find_value(s.headers, "upgrade"@) {
        Some(v) => eq_ignore_case(v, "websocket"@),
        None => false,
    })
    &&& (match find_value(s.headers, "sec-websocket-version"@) {
        Some(v) => v == "13"@,
        None => false,
    })
    &&& find_value(s.headers, "sec-websocket-key"@) is Some
}

/// Decides whether the request can be taken over by the WebSocket
/// adapter; anything else falls back to the plain HTTP adapter.
pub fn can_upgrade(s: &crate::http::HttpScope) -> (r: bool)
    ensures
        r == upgrade_eligible(s@),
{
    if !crate::strutil::str_eq(s.method.as_str(), "GET") {
        return false;
    }
    if !s.version.at_least_http11() {
        return false;
    }
    let connection_ok = match s.headers.get("connection") {
        Some(v) => crate::strutil::contains_token_ignore_case(v.as_str(), "upgrade"),
        None => false,
    };
    if !connection_ok {
        return false;
    }
    let upgrade_ok = match s.headers.get("upgrade") {
        Some(v) => crate::strutil::str_eq_ignore_case(v.as_str(), "websocket"),
        None => false,
    };
    if !upgrade_ok {
        return false;
    }
    let version_ok = match s.headers.get("sec-websocket-version") {
        Some(v) => crate::strutil::str_eq(v.as_str(), "13"),
        None => false,
    };
    if !version_ok {
        return false;
    }
    s.headers.contains("sec-websocket-key")
}

// ------------------------------------------------------------------
// Subprotocol parsing.
// ------------------------------------------------------------------

/// The subprotocols offered by `h`: every `Sec-WebSocket-Protocol` value,
/// in order, split on spaces and commas.
pub open spec fn subprotocols_of(h: Seq<(Seq<char>, Seq<char>)>) -> Seq<Seq<char>>
    decreases h.len(),
{
    if h.len() == 0 {
        Seq::empty()
    } else {
        (if h[0].0 == "sec-websocket-protocol"@ {
            tokens_of(h[0].1)
        } else {
            Seq::empty()
        }) + subprotocols_of(h.drop_first())
    }
}

/// Collects the offered subprotocols from the request headers.
pub fn parse_subprotocols(headers: &Headers) -> (r: Vec<String>)
    ensures
        crate::strutil::str_views(r@) == subprotocols_of(headers@),
{
    let mut r: Vec<String> = Vec::new();
    let mut i: usize = 0;
    proof {
        assert(headers@.skip(0) =~= headers@);
        assert(crate::strutil::str_views(r@) =~= Seq::<Seq<char>>::empty());
    }
    while i < headers.len()
        invariant
            i <= headers@.len(),
            crate::strutil::str_views(r@) + subprotocols_of(headers@.skip(i as int))
                =~= subprotocols_of(headers@),
        decreases headers@.len() - i,
    {
        proof {
            assert(headers@.skip(i as int).drop_first() =~= headers@.skip(i + 1));
        }
        if crate::strutil::str_eq(headers.name_at(i).as_str(), "sec-websocket-protocol") {
            let mut toks = crate::strutil::split_tokens(headers.value_at(i).as_str());
            let ghost r_prior = r@;
            let ghost toks_snap = toks@;
            r.append(&mut toks);
            proof {
                assert(r@ == r_prior + toks_snap);
                assert(crate::strutil::str_views(r@) =~= crate::strutil::str_views(r_prior)
                    + crate::strutil::str_views(toks_snap));
            }
        }
        i = i + 1;
    }
    proof {
        assert(headers@.skip(headers@.len() as int) =~= Seq::<(Seq<char>, Seq<char>)>::empty());
    }
    r
}

// ------------------------------------------------------------------
// Handshake derivation.
// ------------------------------------------------------------------

/// Whether `c` belongs to the base64 alphabet.
pub open spec fn is_base64_char(c: char) -> bool {
    let x = c as int;
    (65 <= x <= 90) || (97 <= x <= 122) || (48 <= x <= 57) || x == 43 || x == 47
}

/// The shape RFC 6455 gives the client key: 24 characters of base64 —
/// 22 from the alphabet and two trailing padding signs — encoding
/// exactly 16 bytes.
pub open spec fn valid_ws_key(k: Seq<char>) -> bool {
    &&& k.len() == 24
    &&& (forall|i: int| 0 <= i < 22 ==> is_base64_char(k[i]))
    &&& k[22] == '='
    &&& k[23] == '='
}

/// Tests whether `k` is a well-formed client key.
pub fn well_formed_key(k: &str) -> (r: bool)
    ensures
        r == valid_ws_key(k@),
{
    if k.unicode_len() != 24 {
        return false;
    }
    let mut i: usize = 0;
    while i < 22
        invariant
            i <= 22,
            k@.len() == 24,
            forall|j: int| 0 <= j < i ==> is_base64_char(k@[j]),
        decreases 22 - i,
    {
        let c = k.get_char(i) as u32;
        let ok = (65 <= c && c <= 90) || (97 <= c && c <= 122) || (48 <= c && c <= 57) || c == 43
            || c == 47;
        if !ok {
            assert(!is_base64_char(k@[i as int]));
            return false;
        }
        i = i + 1;
    }
    k.get_char(22) == '=' && k.get_char(23) == '='
}

/// What `derive_accept_key` returns for a request key: the base64 of the
/// SHA-1 digest of the key joined with the RFC 6455 GUID, a function of
/// the key alone.
pub uninterp spec fn accept_key_of(key: Seq<char>) -> Seq<char>;

/// Relies on `tungstenite::handshake::derive_accept_key` (re-exported by
/// tokio-tungstenite) for the `Sec-WebSocket-Accept` value: base64 of the
/// SHA-1 of the key bytes joined with the RFC 6455 GUID, depending on the
/// key alone.
#[verifier::external_body]
fn derive_accept(key: &str) -> (r: String)
    ensures
        r@ == accept_key_of(key@),
{
    tokio_tungstenite::tungstenite::handshake::derive_accept_key(key.as_bytes())
}

/// The answer the adapter writes to the transport when a service accepts
/// an offered WebSocket connection: status 101 and an empty body.
pub struct WsHandshakeResponse {
    pub status: u16,
    pub headers: Headers,
}

/// The mathematical value of a [`WsHandshakeResponse`].
#[verifier::ext_equal]
pub struct WsHandshakeResponseView {
    pub status: u16,
    pub headers: Seq<(Seq<char>, Seq<char>)>,
}

impl View for WsHandshakeResponse {
    type V = WsHandshakeResponseView;

    open spec fn view(&self) -> WsHandshakeResponseView {
        WsHandshakeResponseView { status: self.status, headers: self.headers@ }
    }
}

/// The headers of the switching-protocols answer: the accept event's own
/// headers, then the upgrade pair, the derived key, and, if the service
/// chose a subprotocol, its announcement.
pub open spec fn handshake_headers(accept: AcceptView, key: Seq<char>) -> Seq<
    (Seq<char>, Seq<char>),
> {
    accept.headers.push(("connection"@, "Upgrade"@)).push(("upgrade"@, "websocket"@)).push(
        ("sec-websocket-accept"@, accept_key_of(key)),
    ) + (match accept.subprotocol {
        Some(p) => seq![("sec-websocket-protocol"@, p)],
        None => Seq::empty(),
    })
}

/// Builds the switching-protocols answer for an accepted upgrade, deriving
/// `Sec-WebSocket-Accept` from the request's `Sec-WebSocket-Key`; a
/// missing or malformed key when the service has already accepted is a
/// configuration error, and nothing is sent.
pub fn upgrade_response(request_headers: &Headers, accept: &Accept) -> (r: Result<
    WsHandshakeResponse,
    ServiceError,
>)
    ensures
        match find_value(request_headers@, "sec-websocket-key"@) {
            Some(k) => {
                if valid_ws_key(k) {
                    match r {
                        Ok(resp) => resp@.status == 101 && resp@.headers == handshake_headers(
                            accept@,
                            k,
                        ),
                        Err(_) => false,
                    }
                } else {
                    r == Err::<WsHandshakeResponse, _>(ServiceError::ConfigurationError)
                }
            },
            None => r == Err::<WsHandshakeResponse, _>(ServiceError::ConfigurationError),
        },
{
    let key = match request_headers.get("sec-websocket-key") {
        Some(k) => k,
        None => {
            return Err(ServiceError::ConfigurationError);
        },
    };
    if !well_formed_key(key.as_str()) {
        return Err(ServiceError::ConfigurationError);
    }
    let derived = derive_accept(key.as_str());
    let mut headers = accept.headers.clone();
    headers.append(String::from_str("connection"), String::from_str("Upgrade"));
    headers.append(String::from_str("upgrade"), String::from_str("websocket"));
    headers.append(String::from_str("sec-websocket-accept"), derived);
    match &accept.subprotocol {
        Some(p) => {
            headers.append(String::from_str("sec-websocket-protocol"), p.clone());
        },
        None => {},
    }
    let resp = WsHandshakeResponse { status: 101, headers };
    proof {
        assert(resp@.headers =~= handshake_headers(
            accept@,
            find_value(request_headers@, "sec-websocket-key"@)->0,
        ));
    }
    Ok(resp)
}

// ------------------------------------------------------------------
// First outbound event: decline, accept, or violation.
// ------------------------------------------------------------------

/// What the first outbound event of the service decides.
pub enum FirstOutbound {
    /// An HTTP-family event: the exchange is a declined, ordinary response.
    HttpFallback,
    /// A WebSocket `Accept`: proceed with the upgrade.
    Accepted(Accept),
}

/// Classifies the first outbound event of a service offered an upgrade:
/// an HTTP-family event declines it, a WebSocket `Accept` accepts it, and
/// anything else is a protocol violation.
pub fn classify_first_outbound(e: &Event) -> (r: Result<FirstOutbound, ServiceError>)
    ensures
        match r {
            Ok(FirstOutbound::HttpFallback) => e@.payload.kind()
                == crate::service::PayloadKind::Http,
            Ok(FirstOutbound::Accepted(a)) => e@.payload == PayloadView::WebSocket(
                WebSocketEventView::Accept(a@),
            ),
            Err(err) => {
                &&& err == ServiceError::ProtocolViolation
                &&& e@.payload.kind() == crate::service::PayloadKind::WebSocket
                &&& !(e@.payload is WebSocket && e@.payload->WebSocket_0 is Accept)
            },
        },
{
    match e.get_ref(crate::service::PayloadKind::Http) {
        Some(_) => {
            return Ok(FirstOutbound::HttpFallback);
        },
        None => {},
    }
    match e.get_ref(crate::service::PayloadKind::WebSocket) {
        Some(p) => match p {
            Payload::WebSocket(WebSocketEvent::Accept(a)) => Ok(
                FirstOutbound::Accepted(a.clone()),
            ),
            _ => Err(ServiceError::ProtocolViolation),
        },
        None => Err(ServiceError::ProtocolViolation),
    }
}

// ------------------------------------------------------------------
// Full-duplex bridging.
// ------------------------------------------------------------------

/// A frame on the wire, as the raw-socket transport sees it.
pub enum WireFrame {
    Text(String),
    Binary(Vec<u8>),
    /// A close frame, possibly carrying a code and reason.
    Close(Option<(u16, String)>),
    Ping(Vec<u8>),
    Pong(Vec<u8>),
}

/// The mathematical value of a [`WireFrame`].
#[verifier::ext_equal]
pub enum WireFrameView {
    Text(Seq<char>),
    Binary(Seq<u8>),
    Close(Option<(u16, Seq<char>)>),
    Ping(Seq<u8>),
    Pong(Seq<u8>),
}

impl View for WireFrame {
    type V = WireFrameView;

    open spec fn view(&self) -> WireFrameView {
        match self {
            WireFrame::Text(s) => WireFrameView::Text(s@),
            WireFrame::Binary(b) => WireFrameView::Binary(b@),
            WireFrame::Close(c) => WireFrameView::Close(
                match c {
                    Some(p) => Some((p.0, p.1@)),
                    None => None,
                },
            ),
            WireFrame::Ping(b) => WireFrameView::Ping(b@),
            WireFrame::Pong(b) => WireFrameView::Pong(b@),
        }
    }
}

/// An event of the WebSocket family.
pub open spec fn ws_ev(w: WebSocketEventView) -> EventView {
    EventView { family: "websocket"@, payload: PayloadView::WebSocket(w) }
}

/// What one outbound event does to the bridge after the upgrade: the frame
/// to put on the wire, if any, and whether the connection is now closed.
/// After a close nothing further is forwarded; a `Connect` or `Accept`
/// here, or an event of another family, is a protocol violation.
pub open spec fn bridge_out_step(closed: bool, ev: EventView) -> Result<
    (bool, Option<WireFrameView>),
    ServiceError,
> {
    if closed {
        Ok((true, None))
    } else {
        match ev.payload {
            PayloadView::WebSocket(w) => match w {
                WebSocketEventView::TextFrame(t) => Ok(
                    (false, Some(WireFrameView::Text(t.data))),
                ),
                WebSocketEventView::BinaryFrame(b) => Ok(
                    (false, Some(WireFrameView::Binary(b.data))),
                ),
                WebSocketEventView::Close(c) => Ok(
                    (
                        true,
                        Some(
                            WireFrameView::Close(
                                Some(
                                    (
                                        c.code,
                                        match c.reason {
                                            Some(s) => s,
                                            None => Seq::empty(),
                                        },
                                    ),
                                ),
                            ),
                        ),
                    ),
                ),
                WebSocketEventView::Disconnect(_) => Ok((false, None)),
                WebSocketEventView::Connect(_) => Err(ServiceError::ProtocolViolation),
                WebSocketEventView::Accept(_) => Err(ServiceError::ProtocolViolation),
            },
            _ => Err(ServiceError::ProtocolViolation),
        }
    }
}

/// Once the bridge is closed, no outbound event is forwarded to the wire.
pub proof fn lemma_closed_bridge_forwards_nothing(ev: EventView)
    ensures
        bridge_out_step(true, ev) == Ok::<(bool, Option<WireFrameView>), ServiceError>((true, None)),
{
}

/// The outbound half of the post-upgrade bridge: maps the service's
/// events to wire frames, stopping at the first close.
pub struct WsBridge {
    pub closed: bool,
}

impl WsBridge {
    /// A bridge for a connection that was just accepted.
    pub fn new() -> (r: Self)
        ensures
            r.closed == false,
    {
        WsBridge { closed: false }
    }

    /// Maps one outbound event to the frame to put on the wire, if any.
    pub fn on_app_event(&mut self, e: &Event) -> (r: Result<Option<WireFrame>, ServiceError>)
        ensures
            match r {
                Ok(f) => bridge_out_step(old(self).closed, e@) == Ok::<_, ServiceError>(
                    (
                        final(self).closed,
                        match f {
                            Some(w) => Some(w@),
                            None => None,
                        },
                    ),
                ),
                Err(err) => {
                    &&& bridge_out_step(old(self).closed, e@) == Err::<
                        (bool, Option<WireFrameView>),
                        _,
                    >(err)
                    &&& final(self).closed == old(self).closed
                },
            },
    {
        if self.closed {
            return Ok(None);
        }
        match e.get_ref(crate::service::PayloadKind::WebSocket) {
            Some(p) => match p {
                Payload::WebSocket(WebSocketEvent::TextFrame(t)) => Ok(
                    Some(WireFrame::Text(t.data.clone())),
                ),
                Payload::WebSocket(WebSocketEvent::BinaryFrame(b)) => {
                    let data = b.data.clone();
                    proof {
                        assert(data@ =~= b.data@);
                    }
                    Ok(Some(WireFrame::Binary(data)))
                },
                Payload::WebSocket(WebSocketEvent::Close(c)) => {
                    self.closed = true;
                    let reason = match &c.reason {
                        Some(s) => s.clone(),
                        None => String::new(),
                    };
                    Ok(Some(WireFrame::Close(Some((c.code, reason)))))
                },
                Payload::WebSocket(WebSocketEvent::Disconnect(_)) => Ok(None),
                _ => Err(ServiceError::ProtocolViolation),
            },
            None => Err(ServiceError::ProtocolViolation),
        }
    }
}

/// What one wire frame is delivered to the service as: text and binary
/// frames become their events, a close frame becomes `Close` with code
/// 1000 when the frame carries none, and ping and pong frames are the
/// transport's own affair.
pub open spec fn wire_in_event(f: WireFrameView) -> Option<EventView> {
    match f {
        WireFrameView::Text(s) => Some(
            ws_ev(
                WebSocketEventView::TextFrame(crate::websocket::TextFrameView { data: s }),
            ),
        ),
        WireFrameView::Binary(b) => Some(
            ws_ev(
                WebSocketEventView::BinaryFrame(crate::websocket::BinaryFrameView { data: b }),
            ),
        ),
        WireFrameView::Close(c) => Some(
            ws_ev(
                WebSocketEventView::Close(
                    match c {
                        Some(p) => crate::websocket::CloseView {
                            code: p.0,
                            reason: Some(p.1),
                        },
                        None => crate::websocket::CloseView { code: 1000, reason: None },
                    },
                ),
            ),
        ),
        WireFrameView::Ping(_) => None,
        WireFrameView::Pong(_) => None,
    }
}

/// The scope an offered WebSocket connection is handed to the service
/// with: the HTTP request metadata and, beside it, the parsed
/// subprotocol offer.
pub open spec fn websocket_connection_scope(h: HttpScopeView) -> ScopeView {
    ScopeView {
        protocol: "http"@,
        attachments: Map::empty().insert(AttachmentKey::Http, AttachmentView::Http(h)).insert(
            AttachmentKey::WebSocket,
            AttachmentView::WebSocket(
                WebSocketScopeView { subprotocols: subprotocols_of(h.headers) },
            ),
        ),
    }
}

/// Builds the scope for an offered WebSocket connection.
pub fn websocket_scope_for(http_scope: HttpScope) -> (r: Scope)
    ensures
        r@ == websocket_connection_scope(http_scope@),
{
    let subprotocols = parse_subprotocols(&http_scope.headers);
    let ghost h = http_scope@;
    let r = Scope::new(crate::http::protocol_http()).with_scope(
        Attachment::Http(http_scope),
    ).with_scope(Attachment::WebSocket(WebSocketScope { subprotocols }));
    proof {
        assert(r@ =~= websocket_connection_scope(h));
    }
    r
}

/// The frames a whole outbound stream puts on the wire, or the first
/// violation in it: every frame up to and including the first close, in
/// order, and nothing after the close.
pub open spec fn bridge_run(closed: bool, events: Seq<EventView>) -> Result<
    Seq<WireFrameView>,
    ServiceError,
>
    decreases events.len(),
{
    if events.len() == 0 {
        Ok(Seq::empty())
    } else {
        match bridge_out_step(closed, events[0]) {
            Ok(pair) => match bridge_run(pair.0, events.drop_first()) {
                Ok(frames) => Ok(
                    (match pair.1 {
                        Some(f) => seq![f],
                        None => Seq::empty(),
                    }) + frames,
                ),
                Err(e) => Err(e),
            },
            Err(e) => Err(e),
        }
    }
}

/// Maps a whole outbound stream to the frames the wire sees, stopping
/// at the first close and rejecting any event the bridge may not
/// forward.
pub fn bridge_outbound(events: &Vec<Event>) -> (r: Result<Vec<WireFrame>, ServiceError>)
    ensures
        match r {
            Ok(frames) => bridge_run(false, crate::service::events_view(events@)) == Ok::<
                _,
                ServiceError,
            >(frames@.map_values(|f: WireFrame| f@)),
            Err(e) => bridge_run(false, crate::service::events_view(events@)) == Err::<
                Seq<WireFrameView>,
                _,
            >(e),
        },
{
    let ghost all = crate::service::events_view(events@);
    let mut bridge = WsBridge::new();
    let mut frames: Vec<WireFrame> = Vec::new();
    let mut i: usize = 0;
    proof {
        assert(all.skip(0) =~= all);
        assert(frames@.map_values(|f: WireFrame| f@) =~= Seq::<WireFrameView>::empty());
    }
    while i < events.len()
        invariant
            i <= events@.len(),
            all == crate::service::events_view(events@),
            all.len() == events@.len(),
            match bridge_run(bridge.closed, all.skip(i as int)) {
                Ok(rest) => bridge_run(false, all) == Ok::<_, ServiceError>(
                    frames@.map_values(|f: WireFrame| f@) + rest,
                ),
                Err(e) => bridge_run(false, all) == Err::<Seq<WireFrameView>, _>(e),
            },
        decreases events@.len() - i,
    {
        proof {
            assert(all.skip(i as int)[0] == all[i as int]);
            assert(all.skip(i as int).drop_first() =~= all.skip(i + 1));
        }
        let ghost closed_pre = bridge.closed;
        let ghost frames_prior = frames@;
        match bridge.on_app_event(&events[i]) {
            Ok(Some(f)) => {
                let ghost f_snap = f;
                frames.push(f);
                proof {
                    broadcast use vstd::prelude::Seq::group_seq_extra;

                    assert(frames@ == frames_prior.push(f_snap));
                    assert(frames@.map_values(|w: WireFrame| w@) =~= frames_prior.map_values(
                        |w: WireFrame| w@,
                    ).push(f_snap@));
                    if bridge_run(bridge.closed, all.skip(i + 1)) is Ok {
                        let rest2 = bridge_run(bridge.closed, all.skip(i + 1))->Ok_0;
                        assert(bridge_run(closed_pre, all.skip(i as int)) == Ok::<
                            _,
                            ServiceError,
                        >(seq![f_snap@] + rest2));
                        assert(frames@.map_values(|w: WireFrame| w@) + rest2 =~= frames_prior
                            .map_values(|w: WireFrame| w@) + (seq![f_snap@] + rest2));
                    }
                }
            },
            Ok(None) => {
                proof {
                    if bridge_run(bridge.closed, all.skip(i + 1)) is Ok {
                        let rest2 = bridge_run(bridge.closed, all.skip(i + 1))->Ok_0;
                        assert(bridge_run(closed_pre, all.skip(i as int)) == Ok::<
                            _,
                            ServiceError,
                        >(Seq::<WireFrameView>::empty() + rest2));
                        assert(Seq::<WireFrameView>::empty() + rest2 =~= rest2);
                    }
                }
            },
            Err(e) => {
                return Err(e);
            },
        }
        i = i + 1;
    }
    proof {
        assert(all.skip(all.len() as int) =~= Seq::<EventView>::empty());
        assert(frames@.map_values(|f: WireFrame| f@) + Seq::<WireFrameView>::empty()
            =~= frames@.map_values(|f: WireFrame| f@));
    }
    Ok(frames)
}

/// The event that tells the service a peer offered a WebSocket
/// connection.
pub open spec fn connect_ev() -> EventView {
    ws_ev(WebSocketEventView::Connect(Connect {  }))
}

/// How one served connection ended.
pub enum ServeOutcome {
    /// An ordinary HTTP exchange: the request was no upgrade offer, or
    /// the service declined it.
    Http(TransportResponse),
    /// A completed upgrade: the switching-protocols answer, and the
    /// frames the service's outbound stream puts on the wire.
    Upgraded(WsHandshakeResponse, Vec<WireFrame>),
}

/// Serves one connection. An ineligible request is a plain HTTP
/// exchange. An eligible one is offered to the service as a `Connect`;
/// the service's first outbound event then decides: an HTTP-family event
/// declines the upgrade and answers an ordinary response, an `Accept`
/// completes the handshake and bridges the remaining outbound events to
/// the wire, and anything else — or an empty outbound stream — is a
/// protocol violation. A malformed `Sec-WebSocket-Key` met by an
/// `Accept` is a configuration error, and no partial answer is built.
pub fn serve_connection<S: Service>(
    service: &mut S,
    http_scope: HttpScope,
    frames: Vec<Vec<u8>>,
) -> (r: Result<ServeOutcome, ServiceError>)
    ensures
        !upgrade_eligible(http_scope@) ==> ({
            let outcome = old(service).spec_call(
                crate::http_adapter::http_connection_scope(http_scope@),
                crate::http_adapter::inbound_events_of(
                    crate::http_adapter::bytes_views(frames@),
                ),
            );
            match outcome {
                Ok(events) => match r {
                    Ok(ServeOutcome::Http(t)) => render_outbound(events) == Ok::<
                        _,
                        ServiceError,
                    >(t@),
                    Ok(ServeOutcome::Upgraded(_, _)) => false,
                    Err(e) => render_outbound(events) == Err::<
                        crate::http_adapter::TransportResponseView,
                        _,
                    >(e),
                },
                Err(e) => r is Err && r->Err_0 == e,
            }
        }),
        upgrade_eligible(http_scope@) ==> ({
            let outcome = old(service).spec_call(
                websocket_connection_scope(http_scope@),
                seq![connect_ev()],
            );
            match outcome {
                Ok(events) => {
                    if events.len() == 0 {
                        r is Err && r->Err_0 == ServiceError::ProtocolViolation
                    } else if events[0].payload.kind() == crate::service::PayloadKind::Http {
                        match r {
                            Ok(ServeOutcome::Http(t)) => render_outbound(events) == Ok::<
                                _,
                                ServiceError,
                            >(t@),
                            Ok(ServeOutcome::Upgraded(_, _)) => false,
                            Err(e) => render_outbound(events) == Err::<
                                crate::http_adapter::TransportResponseView,
                                _,
                            >(e),
                        }
                    } else if events[0].payload is WebSocket
                        && events[0].payload->WebSocket_0 is Accept {
                        let accept = events[0].payload->WebSocket_0->Accept_0;
                        let key = find_value(http_scope@.headers, "sec-websocket-key"@)->0;
                        if valid_ws_key(key) {
                            match r {
                                Ok(ServeOutcome::Upgraded(h, fs)) => {
                                    &&& h@.status == 101
                                    &&& h@.headers == handshake_headers(accept, key)
                                    &&& bridge_run(false, events.drop_first()) == Ok::<
                                        _,
                                        ServiceError,
                                    >(fs@.map_values(|f: WireFrame| f@))
                                },
                                Ok(ServeOutcome::Http(_)) => false,
                                Err(e) => bridge_run(false, events.drop_first()) == Err::<
                                    Seq<WireFrameView>,
                                    _,
                                >(e),
                            }
                        } else {
                            r is Err && r->Err_0 == ServiceError::ConfigurationError
                        }
                    } else {
                        r is Err && r->Err_0 == ServiceError::ProtocolViolation
                    }
                },
                Err(e) => r is Err && r->Err_0 == e,
            }
        }),
{
    if !can_upgrade(&http_scope) {
        return match crate::http_adapter::serve_http(service, http_scope, frames) {
            Ok(t) => Ok(ServeOutcome::Http(t)),
            Err(e) => Err(e),
        };
    }
    let request_headers = http_scope.headers.clone();
    let ghost scope_view = websocket_connection_scope(http_scope@);
    let scope = websocket_scope_for(http_scope);
    let mut inbound: Vec<Event> = Vec::new();
    inbound.push(
        Event::new(
            crate::websocket::event_websocket(),
            Payload::WebSocket(crate::websocket::WebSocketEvent::Connect(Connect {  })),
        ),
    );
    proof {
        assert(crate::service::events_view(inbound@) =~= seq![connect_ev()]);
    }
    let events = match service.call(&scope, inbound) {
        Ok(events) => events,
        Err(e) => {
            return Err(e);
        },
    };
    if events.len() == 0 {
        return Err(ServiceError::ProtocolViolation);
    }
    match classify_first_outbound(&events[0]) {
        Ok(FirstOutbound::HttpFallback) => match render_response(&events) {
            Ok(t) => Ok(ServeOutcome::Http(t)),
            Err(e) => Err(e),
        },
        Ok(FirstOutbound::Accepted(accept)) => {
            let handshake = match upgrade_response(&request_headers, &accept) {
                Ok(h) => h,
                Err(e) => {
                    return Err(e);
                },
            };
            let ghost all_events = crate::service::events_view(events@);
            let mut rest = events;
            let _first = rest.remove(0);
            proof {
                assert(crate::service::events_view(rest@) =~= all_events.drop_first());
            }
            match bridge_outbound(&rest) {
                Ok(ws_frames) => Ok(ServeOutcome::Upgraded(handshake, ws_frames)),
                Err(e) => Err(e),
            }
        },
        Err(e) => Err(e),
    }
}

/// The empty body of the switching-protocols answer.
pub struct Empty {}

impl Empty {
    /// The body yields no frame.
    pub fn next_frame(&self) -> (r: Option<Vec<u8>>)
        ensures
            r is None,
    {
        None
    }

    /// The body is over before it begins.
    pub fn is_end_stream(&self) -> (r: bool)
        ensures
            r == true,
    {
        true
    }

    /// The body's exact size.
    pub fn size_hint(&self) -> (r: usize)
        ensures
            r == 0,
    {
        0
    }
}

/// Delivers one wire frame as an inbound event, if it carries one.
pub fn wire_to_event(f: WireFrame) -> (r: Option<Event>)
    ensures
        match r {
            Some(e) => wire_in_event(f@) == Some(e@),
            None => wire_in_event(f@) is None,
        },
{
    match f {
        WireFrame::Text(s) => Some(
            Event::new(
                event_websocket(),
                Payload::WebSocket(WebSocketEvent::TextFrame(TextFrame { data: s })),
            ),
        ),
        WireFrame::Binary(b) => Some(
            Event::new(
                event_websocket(),
                Payload::WebSocket(WebSocketEvent::BinaryFrame(BinaryFrame { data: b })),
            ),
        ),
        WireFrame::Close(c) => {
            let close = match c {
                Some(p) => Close { code: p.0, reason: Some(p.1) },
                None => Close { code: 1000, reason: None },
            };
            Some(
                Event::new(
                    event_websocket(),
                    Payload::WebSocket(WebSocketEvent::Close(close)),
                ),
            )
        },
        WireFrame::Ping(_) => None,
        WireFrame::Pong(_) => None,
    }
}

} // verus!
