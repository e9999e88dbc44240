//! Observability middleware that watches one attachment key and never
//! alters the stream.

use vstd::prelude::*;

use crate::service::{
    scope_get, AttachmentKey, Event, EventView, Scope, ScopeView, Service, ServiceError,
};

verus! {

/// The name a watched attachment key is reported under.
pub open spec fn key_name(key: AttachmentKey) -> Seq<char> {
    match key {
        AttachmentKey::Http => "http"@,
        AttachmentKey::WebSocket => "websocket"@,
    }
}

/// The record text for a scope whose watched attachment is present.
pub open spec fn record_text(key: AttachmentKey, protocol: Seq<char>) -> Seq<char> {
    "scope "@ + protocol + " carries "@ + key_name(key)
}

/// Observability middleware: it watches one attachment key and, when a
/// scope carries it, has a debug record for the sink; the stream itself
/// is handed to the inner service untouched.
pub struct Logger<S> {
    inner: S,
    watched: AttachmentKey,
}

impl<S> Logger<S> {
    /// The wrapped service.
    pub closed spec fn spec_inner(&self) -> S {
        self.inner
    }

    /// The attachment key this logger watches.
    pub closed spec fn spec_watched(&self) -> AttachmentKey {
        self.watched
    }

    /// Watches `watched` in front of `srv`.
    pub fn new(srv: S, watched: AttachmentKey) -> (r: Self)
        ensures
            r.spec_inner() == srv,
            r.spec_watched() == watched,
    {
        Logger { inner: srv, watched }
    }

    /// The debug record for `scope`: present exactly when the watched
    /// attachment is.
    pub fn record_for(&self, scope: &Scope) -> (r: Option<String>)
        ensures
            match r {
                Some(t) => {
                    &&& scope_get(scope@, self.spec_watched()) is Some
                    &&& t@ == record_text(self.spec_watched(), scope@.protocol)
                },
                None => scope_get(scope@, self.spec_watched()) is None,
            },
    {
        match scope.get_ref(self.watched) {
            Some(_) => {
                let mut t = String::from_str("scope ");
                t.append(scope.protocol().as_str());
                t.append(" carries ");
                match self.watched {
                    AttachmentKey::Http => t.append("http"),
                    AttachmentKey::WebSocket => t.append("websocket"),
                }
                Some(t)
            },
            None => None,
        }
    }
}

impl<S: Service> Service for Logger<S> {
    /// Exactly what the inner service answers: logging never alters the
    /// stream.
    open spec fn spec_call(&self, scope: ScopeView, inbound: Seq<EventView>) -> Result<
        Seq<EventView>,
        ServiceError,
    > {
        self.spec_inner().spec_call(scope, inbound)
    }

    fn call(&mut self, scope: &Scope, inbound: Vec<Event>) -> (r: Result<Vec<Event>, ServiceError>)
    {
        self.inner.call(scope, inbound)
    }
}

} // verus!
