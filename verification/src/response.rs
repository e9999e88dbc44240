//! Services answering every request with one fixed response.

use vstd::prelude::*;

use crate::headers::{remove_name, Headers};
use crate::http::{
    event_http, HttpEvent, HttpEventView, ResponseChunk, ResponseChunkView, ResponseStart,
    ResponseStartView,
};
use crate::service::{
    events_view, Event, EventView, Payload, PayloadView, Scope, ScopeView, Service, ServiceError,
};
use crate::strutil::dec_str;
use vstd::utf8::encode_utf8;

verus! {

/// Clones an event stream value for value.
pub fn clone_events(v: &Vec<Event>) -> (r: Vec<Event>)
    ensures
        events_view(r@) == events_view(v@),
{
    let mut r: Vec<Event> = Vec::new();
    let mut i: usize = 0;
    proof {
        assert(events_view(r@) =~= events_view(v@).take(0));
    }
    while i < v.len()
        invariant
            i <= v@.len(),
            r@.len() == i,
            events_view(r@) =~= events_view(v@).take(i as int),
        decreases v@.len() - i,
    {
        let e = v[i].clone();
        let ghost e_snap = e;
        r.push(e);
        proof {
            broadcast use vstd::prelude::Seq::group_seq_extra;

            assert(e_snap@ == events_view(v@)[i as int]);
            assert(events_view(r@) =~= events_view(v@).take(i + 1));
        }
        i = i + 1;
    }
    proof {
        assert(events_view(v@).take(v@.len() as int) =~= events_view(v@));
    }
    r
}

/// The outbound stream a fixed response answers every request with: a
/// `ResponseStart` whose headers carry the body's length and media type,
/// then the whole body in one final chunk.
pub open spec fn static_response_events(
    status: u16,
    content: Seq<u8>,
    media_type: Seq<char>,
    headers: Seq<(Seq<char>, Seq<char>)>,
) -> Seq<EventView> {
    let with_len = remove_name(headers, "content-length"@).push(
        ("content-length"@, dec_str(content.len())),
    );
    let with_type = remove_name(with_len, "content-type"@).push(("content-type"@, media_type));
    seq![
        EventView {
            family: "http"@,
            payload: PayloadView::Http(
                HttpEventView::ResponseStart(
                    ResponseStartView { status, headers: with_type, trailers: false },
                ),
            ),
        },
        EventView {
            family: "http"@,
            payload: PayloadView::Http(
                HttpEventView::ResponseChunk(ResponseChunkView { body: content, more: false }),
            ),
        },
    ]
}

/// A service that answers every request with the same fixed response.
pub struct StaticResponse {
    events: Vec<Event>,
}

impl View for StaticResponse {
    type V = Seq<EventView>;

    closed spec fn view(&self) -> Seq<EventView> {
        events_view(self.events@)
    }
}

impl StaticResponse {
    /// Builds the fixed response: `content-length` and `content-type` are
    /// set on the given headers, replacing what was there.
    pub fn new(status: u16, content: Vec<u8>, media_type: String, headers: Headers) -> (r: Self)
        ensures
            r@ == static_response_events(status, content@, media_type@, headers@),
    {
        let ghost headers0 = headers@;
        let len = crate::strutil::u64_dec(content.len() as u64);
        let mut headers = headers;
        headers.insert(String::from_str("content-length"), len);
        headers.insert(String::from_str("content-type"), media_type);
        let start = Event::new(
            event_http(),
            Payload::Http(
                HttpEvent::ResponseStart(ResponseStart { status, headers, trailers: false }),
            ),
        );
        let chunk = Event::new(
            event_http(),
            Payload::Http(HttpEvent::ResponseChunk(ResponseChunk { body: content, more: false })),
        );
        let mut events: Vec<Event> = Vec::new();
        let ghost start_snap = start;
        let ghost chunk_snap = chunk;
        events.push(start);
        events.push(chunk);
        let r = StaticResponse { events };
        proof {
            assert(events@ == Seq::<Event>::empty().push(start_snap).push(chunk_snap));
            assert(r@ =~= static_response_events(status, content@, media_type@, headers0));
        }
        r
    }
}

impl Service for StaticResponse {
    /// The fixed response, whatever the scope and inbound stream.
    open spec fn spec_call(&self, scope: ScopeView, inbound: Seq<EventView>) -> Result<
        Seq<EventView>,
        ServiceError,
    > {
        Ok(self@)
    }

    fn call(&mut self, _scope: &Scope, _inbound: Vec<Event>) -> (r: Result<Vec<Event>, ServiceError>)
    {
        Ok(clone_events(&self.events))
    }
}

impl Default for StaticResponse {
    /// A degenerate response with no events at all.
    fn default() -> (r: Self)
        ensures
            r@ == Seq::<EventView>::empty(),
    {
        let r = StaticResponse { events: Vec::new() };
        proof {
            assert(r@ =~= Seq::<EventView>::empty());
        }
        r
    }
}

impl Clone for StaticResponse {
    /// A clone answers with exactly the same events.
    fn clone(&self) -> (r: Self)
        ensures
            r@ == self@,
    {
        StaticResponse { events: clone_events(&self.events) }
    }
}

/// A fixed response served as `text/html`.
pub struct HtmlResponse {
    inner: StaticResponse,
}

impl View for HtmlResponse {
    type V = Seq<EventView>;

    closed spec fn view(&self) -> Seq<EventView> {
        self.inner@
    }
}

impl HtmlResponse {
    /// Builds the fixed response from the given HTML body.
    pub fn new(status: u16, content: Vec<u8>, headers: Headers) -> (r: Self)
        ensures
            r@ == static_response_events(status, content@, "text/html"@, headers@),
    {
        HtmlResponse {
            inner: StaticResponse::new(status, content, String::from_str("text/html"), headers),
        }
    }
}

impl Service for HtmlResponse {
    /// The fixed response, whatever the scope and inbound stream.
    open spec fn spec_call(&self, scope: ScopeView, inbound: Seq<EventView>) -> Result<
        Seq<EventView>,
        ServiceError,
    > {
        Ok(self@)
    }

    fn call(&mut self, scope: &Scope, inbound: Vec<Event>) -> (r: Result<Vec<Event>, ServiceError>)
    {
        self.inner.call(scope, inbound)
    }
}

impl Clone for HtmlResponse {
    /// A clone answers with exactly the same events.
    fn clone(&self) -> (r: Self)
        ensures
            r@ == self@,
    {
        HtmlResponse { inner: self.inner.clone() }
    }
}

/// A fixed response served as `text/plain`.
pub struct PlainTextResponse {
    inner: StaticResponse,
}

impl View for PlainTextResponse {
    type V = Seq<EventView>;

    closed spec fn view(&self) -> Seq<EventView> {
        self.inner@
    }
}

impl PlainTextResponse {
    /// Builds the fixed response from the given text, sent UTF-8 encoded.
    pub fn new(status: u16, content: String, headers: Headers) -> (r: Self)
        ensures
            r@ == static_response_events(status, encode_utf8(content@), "text/plain"@, headers@),
    {
        let bytes = content.as_str().as_bytes_vec();
        proof {
            assert(bytes@ =~= encode_utf8(content@));
        }
        PlainTextResponse {
            inner: StaticResponse::new(status, bytes, String::from_str("text/plain"), headers),
        }
    }
}

impl Service for PlainTextResponse {
    /// The fixed response, whatever the scope and inbound stream.
    open spec fn spec_call(&self, scope: ScopeView, inbound: Seq<EventView>) -> Result<
        Seq<EventView>,
        ServiceError,
    > {
        Ok(self@)
    }

    fn call(&mut self, scope: &Scope, inbound: Vec<Event>) -> (r: Result<Vec<Event>, ServiceError>)
    {
        self.inner.call(scope, inbound)
    }
}

impl Clone for PlainTextResponse {
    /// A clone answers with exactly the same events.
    fn clone(&self) -> (r: Self)
        ensures
            r@ == self@,
    {
        PlainTextResponse { inner: self.inner.clone() }
    }
}

} // verus!
