//! Demonstration services that greet every connection.

use vstd::prelude::*;

use crate::http::{event_http, HttpEvent, HttpEventView, ResponseChunk, ResponseChunkView};
use crate::service::{
    events_view, Event, EventView, Payload, PayloadView, Scope, ScopeView, Service, ServiceError,
};
use vstd::utf8::encode_utf8;

verus! {

/// The one event the hello services answer with: the greeting in a single
/// final chunk.
pub open spec fn hello_chunk_ev() -> EventView {
    EventView {
        family: "http"@,
        payload: PayloadView::Http(
            HttpEventView::ResponseChunk(
                ResponseChunkView { body: encode_utf8("Hello, world!"@), more: false },
            ),
        ),
    }
}

/// The outbound stream of the greeting services.
pub struct HelloStream {}

impl HelloStream {
    /// The greeting event the stream yields.
    pub fn next_event(&self) -> (e: Event)
        ensures
            e@ == hello_chunk_ev(),
    {
        let body = "Hello, world!".as_bytes_vec();
        proof {
            assert(body@ =~= encode_utf8("Hello, world!"@));
        }
        Event::new(
            event_http(),
            Payload::Http(HttpEvent::ResponseChunk(ResponseChunk { body, more: false })),
        )
    }
}

/// A demonstration service that greets every connection.
pub struct Hello {}

impl Service for Hello {
    /// One greeting chunk, whatever the scope and inbound stream.
    open spec fn spec_call(&self, scope: ScopeView, inbound: Seq<EventView>) -> Result<
        Seq<EventView>,
        ServiceError,
    > {
        Ok(seq![hello_chunk_ev()])
    }

    fn call(&mut self, _scope: &Scope, _inbound: Vec<Event>) -> (r: Result<Vec<Event>, ServiceError>)
    {
        let stream = HelloStream {  };
        let mut events: Vec<Event> = Vec::new();
        let e = stream.next_event();
        events.push(e);
        proof {
            assert(events_view(events@) =~= seq![hello_chunk_ev()]);
        }
        Ok(events)
    }
}

/// The same greeting service under its boxed-stream name.
pub struct HelloWorldService;

impl Service for HelloWorldService {
    /// One greeting chunk, whatever the scope and inbound stream.
    open spec fn spec_call(&self, scope: ScopeView, inbound: Seq<EventView>) -> Result<
        Seq<EventView>,
        ServiceError,
    > {
        Ok(seq![hello_chunk_ev()])
    }

    fn call(&mut self, scope: &Scope, inbound: Vec<Event>) -> (r: Result<Vec<Event>, ServiceError>)
    {
        let mut inner = Hello {  };
        inner.call(scope, inbound)
    }
}

} // verus!
