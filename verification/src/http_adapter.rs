//! The HTTP adapter's state machines: transport body frames in, framed
//! response events out, with every violation of the framing caught.

use vstd::prelude::*;

use crate::headers::Headers;
use crate::http::{
    event_http, HttpEvent, HttpEventView, HttpScope, HttpScopeView, HttpVersion, PeerAddr,
    RequestChunk, RequestChunkView,
};
use crate::service::{
    Attachment, AttachmentKey, AttachmentView, Event, EventView, Payload, PayloadView, Scope,
    ScopeView, Service, ServiceError,
};

verus! {

// ------------------------------------------------------------------
// Inbound: transport body frames to RequestChunk events.
// ------------------------------------------------------------------

/// States of the inbound request-body machine.
#[derive(Clone, Copy, Debug, PartialEq, Eq, Structural)]
pub enum InboundState {
    /// No body frame has been seen yet.
    AwaitingBody,
    /// At least one data frame has been turned into a chunk.
    StreamingBody,
    /// The final chunk has been emitted; nothing follows.
    Complete,
}

/// The event a request-body chunk is delivered as.
pub open spec fn request_chunk_ev(body: Seq<u8>, more: bool) -> EventView {
    EventView {
        family: "http"@,
        payload: PayloadView::Http(
            HttpEventView::RequestChunk(RequestChunkView { body, more }),
        ),
    }
}

/// Translates a transport's request-body frames into the inbound event
/// stream: one `RequestChunk` with `more == true` per data frame, then
/// exactly one final empty `RequestChunk` with `more == false`.
pub struct HttpInbound {
    pub state: InboundState,
}

impl HttpInbound {
    /// A machine that has seen nothing yet.
    pub fn new() -> (r: Self)
        ensures
            r.state == InboundState::AwaitingBody,
    {
        HttpInbound { state: InboundState::AwaitingBody }
    }

    /// A transport data frame arrived: delivered as a chunk with more to come.
    ///
    /// After the final chunk the inbound stream yields nothing further.
    pub fn on_data(&mut self, body: Vec<u8>) -> (r: Option<Event>)
        ensures
            old(self).state == InboundState::Complete ==> {
                &&& r is None
                &&& final(self).state == InboundState::Complete
            },
            old(self).state != InboundState::Complete ==> {
                &&& match r {
                    Some(e) => e@ == request_chunk_ev(body@, true),
                    None => false,
                }
                &&& final(self).state == InboundState::StreamingBody
            },
    {
        match self.state {
            InboundState::Complete => None,
            _ => {
                self.state = InboundState::StreamingBody;
                Some(
                    Event::new(
                        event_http(),
                        Payload::Http(HttpEvent::RequestChunk(RequestChunk { body, more: true })),
                    ),
                )
            },
        }
    }

    /// The transport reported end of body: delivered as the single final
    /// empty chunk.
    pub fn on_end(&mut self) -> (r: Option<Event>)
        ensures
            old(self).state == InboundState::Complete ==> {
                &&& r is None
                &&& final(self).state == InboundState::Complete
            },
            old(self).state != InboundState::Complete ==> {
                &&& match r {
                    Some(e) => e@ == request_chunk_ev(Seq::<u8>::empty(), false),
                    None => false,
                }
                &&& final(self).state == InboundState::Complete
            },
    {
        match self.state {
            InboundState::Complete => None,
            _ => {
                self.state = InboundState::Complete;
                let body: Vec<u8> = Vec::new();
                proof {
                    assert(body@ =~= Seq::<u8>::empty());
                }
                Some(
                    Event::new(
                        event_http(),
                        Payload::Http(HttpEvent::RequestChunk(RequestChunk { body, more: false })),
                    ),
                )
            },
        }
    }
}

/// The views of a sequence of byte buffers.
pub open spec fn bytes_views(bs: Seq<Vec<u8>>) -> Seq<Seq<u8>> {
    bs.map_values(|b: Vec<u8>| b@)
}

/// The inbound event stream a sequence of data frames is delivered as.
pub open spec fn inbound_events_of(frames: Seq<Seq<u8>>) -> Seq<EventView> {
    frames.map_values(|b: Seq<u8>| request_chunk_ev(b, true)).push(
        request_chunk_ev(Seq::<u8>::empty(), false),
    )
}

/// Runs the inbound machine over a whole body: each data frame becomes a
/// chunk with `more == true`, in order, and one final empty chunk with
/// `more == false` closes the stream.
pub fn inbound_events(frames: Vec<Vec<u8>>) -> (r: Vec<Event>)
    ensures
        crate::service::events_view(r@) == inbound_events_of(bytes_views(frames@)),
{
    let ghost all = bytes_views(frames@);
    let mut machine = HttpInbound::new();
    let mut r: Vec<Event> = Vec::new();
    let n = frames.len();
    let mut frames = frames;
    let mut i: usize = 0;
    while i < n
        invariant
            i <= n,
            n == frames@.len(),
            all == bytes_views(frames@),
            machine.state != InboundState::Complete,
            r@.len() == i,
            crate::service::events_view(r@) =~= all.take(i as int).map_values(
                |b: Seq<u8>| request_chunk_ev(b, true),
            ),
        decreases n - i,
    {
        let body = frames[i].clone();
        proof {
            assert(body@ =~= frames@[i as int]@);
        }
        let ev = machine.on_data(body);
        match ev {
            Some(e) => {
                let ghost r_prior = r@;
                let ghost e_snap = e;
                r.push(e);
                proof {
                    broadcast use vstd::prelude::Seq::group_seq_extra;

                    assert(r@ == r_prior.push(e_snap));
                    assert(e_snap@ == request_chunk_ev(all[i as int], true));
                    assert(crate::service::events_view(r@) =~= all.take(i + 1).map_values(
                        |b: Seq<u8>| request_chunk_ev(b, true),
                    ));
                }
            },
            None => {
                proof {
                    assert(false);
                }
            },
        }
        i = i + 1;
    }
    let fin = machine.on_end();
    match fin {
        Some(e) => {
            r.push(e);
        },
        None => {
            proof {
                assert(false);
            }
        },
    }
    proof {
        assert(all.take(n as int) =~= all);
        assert(crate::service::events_view(r@) =~= inbound_events_of(all));
    }
    r
}

// ------------------------------------------------------------------
// Outbound: response events to transport frames.
// ------------------------------------------------------------------

/// States of the outbound response machine.
#[derive(Clone, Copy, Debug, PartialEq, Eq, Structural)]
pub enum OutboundState {
    /// Nothing has been produced; only `ResponseStart` is legal.
    AwaitingResponseStart,
    /// The header section is out; body chunks are legal.
    StreamingBody,
    /// The body ended with trailers declared; trailer blocks are legal.
    StreamingTrailers,
    /// The response is finished; nothing further is legal.
    Complete,
}

/// The mathematical value of an [`HttpOutbound`].
#[verifier::ext_equal]
pub struct OutboundView {
    pub state: OutboundState,
    pub trailers: bool,
}

/// What one legal outbound event is rendered to at the transport.
pub enum OutboundAction {
    /// Populate the transport response header section.
    Start { status: u16, headers: Headers },
    /// Write one body frame.
    BodyFrame { body: Vec<u8> },
    /// Write one trailer block.
    TrailerFrame { headers: Headers },
}

/// The mathematical value of an [`OutboundAction`].
#[verifier::ext_equal]
pub enum OutboundActionView {
    Start { status: u16, headers: Seq<(Seq<char>, Seq<char>)> },
    BodyFrame { body: Seq<u8> },
    TrailerFrame { headers: Seq<(Seq<char>, Seq<char>)> },
}

impl View for OutboundAction {
    type V = OutboundActionView;

    open spec fn view(&self) -> OutboundActionView {
        match self {
            OutboundAction::Start { status, headers } => OutboundActionView::Start {
                status: *status,
                headers: headers@,
            },
            OutboundAction::BodyFrame { body } => OutboundActionView::BodyFrame { body: body@ },
            OutboundAction::TrailerFrame { headers } => OutboundActionView::TrailerFrame {
                headers: headers@,
            },
        }
    }
}

/// What one outbound event does to the machine: the next state and the
/// transport action, or the protocol violation it constitutes.
pub open spec fn outbound_step(m: OutboundView, ev: EventView) -> Result<
    (OutboundView, OutboundActionView),
    ServiceError,
> {
    match m.state {
        OutboundState::AwaitingResponseStart => match ev.payload {
            PayloadView::Http(HttpEventView::ResponseStart(s)) => Ok(
                (
                    OutboundView { state: OutboundState::StreamingBody, trailers: s.trailers },
                    OutboundActionView::Start { status: s.status, headers: s.headers },
                ),
            ),
            _ => Err(ServiceError::ProtocolViolation),
        },
        OutboundState::StreamingBody => match ev.payload {
            PayloadView::Http(HttpEventView::ResponseChunk(c)) => Ok(
                (
                    OutboundView {
                        state: if c.more {
                            OutboundState::StreamingBody
                        } else if m.trailers {
                            OutboundState::StreamingTrailers
                        } else {
                            OutboundState::Complete
                        },
                        trailers: m.trailers,
                    },
                    OutboundActionView::BodyFrame { body: c.body },
                ),
            ),
            _ => Err(ServiceError::ProtocolViolation),
        },
        OutboundState::StreamingTrailers => match ev.payload {
            PayloadView::Http(HttpEventView::ResponseTrailer(t)) => Ok(
                (
                    OutboundView {
                        state: if t.more {
                            OutboundState::StreamingTrailers
                        } else {
                            OutboundState::Complete
                        },
                        trailers: m.trailers,
                    },
                    OutboundActionView::TrailerFrame { headers: t.headers },
                ),
            ),
            _ => Err(ServiceError::ProtocolViolation),
        },
        OutboundState::Complete => Err(ServiceError::ProtocolViolation),
    }
}

/// Enforces response framing on the outbound event stream: exactly one
/// leading `ResponseStart`, then body chunks, then, if declared, trailer
/// blocks; anything else is a fatal protocol violation.
pub struct HttpOutbound {
    pub state: OutboundState,
    pub trailers: bool,
}

impl View for HttpOutbound {
    type V = OutboundView;

    open spec fn view(&self) -> OutboundView {
        OutboundView { state: self.state, trailers: self.trailers }
    }
}

impl HttpOutbound {
    /// A machine that has produced nothing yet.
    pub fn new() -> (r: Self)
        ensures
            r@ == (OutboundView { state: OutboundState::AwaitingResponseStart, trailers: false }),
    {
        HttpOutbound { state: OutboundState::AwaitingResponseStart, trailers: false }
    }

    /// Renders one outbound event, or reports the violation it constitutes.
    /// On a violation the machine is unchanged and the caller is expected
    /// to tear the connection down.
    pub fn on_event(&mut self, e: &Event) -> (r: Result<OutboundAction, ServiceError>)
        ensures
            match r {
                Ok(a) => outbound_step(old(self)@, e@) == Ok::<_, ServiceError>((final(self)@, a@)),
                Err(err) => {
                    &&& outbound_step(old(self)@, e@) == Err::<(OutboundView, OutboundActionView),
                        _,
                    >(err)
                    &&& final(self)@ == old(self)@
                },
            },
    {
        match self.state {
            OutboundState::AwaitingResponseStart => match e.get_ref(
                crate::service::PayloadKind::Http,
            ) {
                Some(p) => match p {
                    Payload::Http(HttpEvent::ResponseStart(s)) => {
                        self.state = OutboundState::StreamingBody;
                        self.trailers = s.trailers;
                        Ok(
                            OutboundAction::Start {
                                status: s.status,
                                headers: s.headers.clone(),
                            },
                        )
                    },
                    _ => Err(ServiceError::ProtocolViolation),
                },
                None => Err(ServiceError::ProtocolViolation),
            },
            OutboundState::StreamingBody => match e.get_ref(crate::service::PayloadKind::Http) {
                Some(p) => match p {
                    Payload::Http(HttpEvent::ResponseChunk(c)) => {
                        if c.more {
                            self.state = OutboundState::StreamingBody;
                        } else if self.trailers {
                            self.state = OutboundState::StreamingTrailers;
                        } else {
                            self.state = OutboundState::Complete;
                        }
                        let body = c.body.clone();
                        proof {
                            assert(body@ =~= c.body@);
                        }
                        Ok(OutboundAction::BodyFrame { body })
                    },
                    _ => Err(ServiceError::ProtocolViolation),
                },
                None => Err(ServiceError::ProtocolViolation),
            },
            OutboundState::StreamingTrailers => match e.get_ref(crate::service::PayloadKind::Http) {
                Some(p) => match p {
                    Payload::Http(HttpEvent::ResponseTrailer(t)) => {
                        if t.more {
                            self.state = OutboundState::StreamingTrailers;
                        } else {
                            self.state = OutboundState::Complete;
                        }
                        Ok(OutboundAction::TrailerFrame { headers: t.headers.clone() })
                    },
                    _ => Err(ServiceError::ProtocolViolation),
                },
                None => Err(ServiceError::ProtocolViolation),
            },
            OutboundState::Complete => Err(ServiceError::ProtocolViolation),
        }
    }

    /// Whether the transport should fire end-of-stream: the body ended with
    /// no trailers declared, or the trailers ended.
    pub fn is_end_stream(&self) -> (r: bool)
        ensures
            r == (self@.state == OutboundState::Complete),
    {
        match self.state {
            OutboundState::Complete => true,
            _ => false,
        }
    }
}

// ------------------------------------------------------------------
// Whole-response rendering.
// ------------------------------------------------------------------

/// What an outbound event stream renders to at the transport.
pub struct TransportResponse {
    pub status: u16,
    pub headers: Headers,
    pub body_frames: Vec<Vec<u8>>,
    pub trailer_frames: Vec<Headers>,
    pub end_of_stream: bool,
}

/// The mathematical value of a [`TransportResponse`].
#[verifier::ext_equal]
pub struct TransportResponseView {
    pub status: u16,
    pub headers: Seq<(Seq<char>, Seq<char>)>,
    pub body_frames: Seq<Seq<u8>>,
    pub trailer_frames: Seq<Seq<(Seq<char>, Seq<char>)>>,
    pub end_of_stream: bool,
}

impl View for TransportResponse {
    type V = TransportResponseView;

    open spec fn view(&self) -> TransportResponseView {
        TransportResponseView {
            status: self.status,
            headers: self.headers@,
            body_frames: self.body_frames@.map_values(|b: Vec<u8>| b@),
            trailer_frames: self.trailer_frames@.map_values(|h: Headers| h@),
            end_of_stream: self.end_of_stream,
        }
    }
}

/// An empty response under construction.
pub open spec fn empty_response() -> TransportResponseView {
    TransportResponseView {
        status: 0,
        headers: Seq::empty(),
        body_frames: Seq::empty(),
        trailer_frames: Seq::empty(),
        end_of_stream: false,
    }
}

/// `acc` after one transport action.
pub open spec fn apply_action(
    acc: TransportResponseView,
    a: OutboundActionView,
) -> TransportResponseView {
    match a {
        OutboundActionView::Start { status, headers } => TransportResponseView {
            status,
            headers,
            ..acc
        },
        OutboundActionView::BodyFrame { body } => TransportResponseView {
            body_frames: acc.body_frames.push(body),
            ..acc
        },
        OutboundActionView::TrailerFrame { headers } => TransportResponseView {
            trailer_frames: acc.trailer_frames.push(headers),
            ..acc
        },
    }
}

/// Folds the outbound machine over `events`, accumulating the rendered
/// response; the first violation aborts the fold, and a stream that ends
/// before its `ResponseStart` — the empty stream included — is itself a
/// violation: the exchange ends with an error, not a silent drop.
pub open spec fn run_outbound(
    m: OutboundView,
    acc: TransportResponseView,
    events: Seq<EventView>,
) -> Result<TransportResponseView, ServiceError>
    decreases events.len(),
{
    if events.len() == 0 {
        if m.state == OutboundState::AwaitingResponseStart {
            Err(ServiceError::ProtocolViolation)
        } else {
            Ok(
                TransportResponseView {
                    end_of_stream: m.state == OutboundState::Complete,
                    ..acc
                },
            )
        }
    } else {
        match outbound_step(m, events[0]) {
            Ok(pair) => run_outbound(pair.0, apply_action(acc, pair.1), events.drop_first()),
            Err(e) => Err(e),
        }
    }
}

/// What a whole outbound event stream renders to, or the first violation
/// in it.
pub open spec fn render_outbound(events: Seq<EventView>) -> Result<
    TransportResponseView,
    ServiceError,
> {
    run_outbound(
        OutboundView { state: OutboundState::AwaitingResponseStart, trailers: false },
        empty_response(),
        events,
    )
}

/// Renders a whole outbound event stream to a transport response, or
/// reports the first protocol violation — a stream that ends without ever
/// starting a response included — rendering nothing.
pub fn render_response(events: &Vec<Event>) -> (r: Result<TransportResponse, ServiceError>)
    ensures
        match r {
            Ok(t) => render_outbound(crate::service::events_view(events@)) == Ok::<
                _,
                ServiceError,
            >(t@),
            Err(e) => render_outbound(crate::service::events_view(events@)) == Err::<
                TransportResponseView,
                _,
            >(e),
        },
{
    let ghost all = crate::service::events_view(events@);
    let mut machine = HttpOutbound::new();
    let mut resp = TransportResponse {
        status: 0,
        headers: Headers::new(),
        body_frames: Vec::new(),
        trailer_frames: Vec::new(),
        end_of_stream: false,
    };
    let mut i: usize = 0;
    proof {
        assert(all.skip(0) =~= all);
        assert(resp@ =~= empty_response());
    }
    while i < events.len()
        invariant
            i <= events@.len(),
            all == crate::service::events_view(events@),
            all.len() == events@.len(),
            resp.end_of_stream == false,
            run_outbound(machine@, resp@, all.skip(i as int)) == render_outbound(all),
        decreases events@.len() - i,
    {
        proof {
            assert(all.skip(i as int)[0] == all[i as int]);
            assert(all.skip(i as int).drop_first() =~= all.skip(i + 1));
        }
        let step = machine.on_event(&events[i]);
        match step {
            Ok(action) => {
                let ghost acc_prior = resp@;
                let ghost action_view = action@;
                match action {
                    OutboundAction::Start { status, headers } => {
                        resp.status = status;
                        resp.headers = headers;
                    },
                    OutboundAction::BodyFrame { body } => {
                        resp.body_frames.push(body);
                    },
                    OutboundAction::TrailerFrame { headers } => {
                        resp.trailer_frames.push(headers);
                    },
                }
                proof {
                    assert(resp@ =~= apply_action(acc_prior, action_view));
                }
            },
            Err(e) => {
                return Err(e);
            },
        }
        i = i + 1;
    }
    proof {
        assert(all.skip(all.len() as int) =~= Seq::<EventView>::empty());
    }
    let started = match machine.state {
        OutboundState::AwaitingResponseStart => false,
        _ => true,
    };
    if !started {
        return Err(ServiceError::ProtocolViolation);
    }
    let ended = machine.is_end_stream();
    resp.end_of_stream = ended;
    proof {
        assert(Ok::<_, ServiceError>(resp@) =~= run_outbound(
            machine@,
            TransportResponseView { end_of_stream: false, ..resp@ },
            Seq::<EventView>::empty(),
        ));
    }
    Ok(resp)
}

// ------------------------------------------------------------------
// One whole HTTP exchange.
// ------------------------------------------------------------------

/// Gathers what the transport knows about a request into the scope
/// attachment the service reads.
pub fn make_http_scope(
    method: String,
    uri: String,
    version: HttpVersion,
    headers: Headers,
    server: Option<PeerAddr>,
    client: Option<PeerAddr>,
) -> (r: HttpScope)
    ensures
        r@ == (HttpScopeView {
            method: method@,
            uri: uri@,
            version,
            headers: headers@,
            server: crate::http::addr_view(server),
            client: crate::http::addr_view(client),
        }),
{
    HttpScope { method, uri, version, headers, server, client }
}

/// The scope an HTTP connection is handed to the service with.
pub open spec fn http_connection_scope(h: HttpScopeView) -> ScopeView {
    ScopeView {
        protocol: "http"@,
        attachments: Map::empty().insert(AttachmentKey::Http, AttachmentView::Http(h)),
    }
}

/// Serves one HTTP exchange: the request scope and body frames go in as
/// the inbound stream, the service's outbound stream is rendered to a
/// transport response, and any failure — the service's own, or a framing
/// violation in its outbound stream — tears the exchange down.
pub fn serve_http<S: Service>(service: &mut S, http_scope: HttpScope, frames: Vec<Vec<u8>>) -> (r:
    Result<TransportResponse, ServiceError>)
    ensures
        ({
            let outcome = old(service).spec_call(
                http_connection_scope(http_scope@),
                inbound_events_of(bytes_views(frames@)),
            );
            match outcome {
                Ok(events) => match r {
                    Ok(t) => render_outbound(events) == Ok::<_, ServiceError>(t@),
                    Err(e) => render_outbound(events) == Err::<TransportResponseView, _>(e),
                },
                Err(e) => r == Err::<TransportResponse, _>(e),
            }
        }),
{
    let scope = Scope::new(crate::http::protocol_http()).with_scope(Attachment::Http(http_scope));
    proof {
        assert(scope@ =~= http_connection_scope(http_scope@));
    }
    let inbound = inbound_events(frames);
    match service.call(&scope, inbound) {
        Ok(events) => render_response(&events),
        Err(e) => Err(e),
    }
}

} // verus!
