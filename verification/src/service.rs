//! The connection vocabulary: scopes, events, the service contract, and
//! the failure classes.

use vstd::prelude::*;

use crate::http::{HttpEvent, HttpEventView, HttpScope, HttpScopeView};
use crate::websocket::{WebSocketEvent, WebSocketEventView, WebSocketScope, WebSocketScopeView};

verus! {

/// The four failure classes a connection can end with.
#[derive(Clone, Copy, Debug, PartialEq, Eq, Structural)]
pub enum ServiceError {
    /// The router has no service for the scope's protocol identifier.
    UnsupportedProtocol,
    /// An adapter observed an illegal event sequence.
    ProtocolViolation,
    /// The underlying transport failed while reading or writing.
    TransportError,
    /// A malformed handshake input was detected before the service ran.
    ConfigurationError,
}

/// The key under which an attachment is stored: one per attachment type.
#[derive(Clone, Copy, Debug, PartialEq, Eq, Structural, Hash)]
pub enum AttachmentKey {
    Http,
    WebSocket,
}

/// A typed piece of per-connection metadata carried by a [`Scope`].
pub enum Attachment {
    Http(HttpScope),
    WebSocket(WebSocketScope),
}

/// The mathematical value of an [`Attachment`].
#[verifier::ext_equal]
pub enum AttachmentView {
    Http(HttpScopeView),
    WebSocket(WebSocketScopeView),
}

impl AttachmentView {
    /// The key this attachment is stored under.
    pub open spec fn key(self) -> AttachmentKey {
        match self {
            AttachmentView::Http(_) => AttachmentKey::Http,
            AttachmentView::WebSocket(_) => AttachmentKey::WebSocket,
        }
    }
}

impl View for Attachment {
    type V = AttachmentView;

    open spec fn view(&self) -> AttachmentView {
        match self {
            Attachment::Http(s) => AttachmentView::Http(s@),
            Attachment::WebSocket(s) => AttachmentView::WebSocket(s@),
        }
    }
}

impl Attachment {
    /// The key this attachment is stored under.
    pub fn key(&self) -> (k: AttachmentKey)
        ensures
            k == self@.key(),
    {
        match self {
            Attachment::Http(_) => AttachmentKey::Http,
            Attachment::WebSocket(_) => AttachmentKey::WebSocket,
        }
    }
}

impl Clone for Attachment {
    /// A clone carries exactly the variant and payload of the original.
    fn clone(&self) -> (r: Self)
        ensures
            r@ == self@,
    {
        match self {
            Attachment::Http(s) => Attachment::Http(s.clone()),
            Attachment::WebSocket(s) => Attachment::WebSocket(s.clone()),
        }
    }
}

/// The mathematical value of a [`Scope`]: a protocol identifier and one
/// attachment per key.
#[verifier::ext_equal]
pub struct ScopeView {
    pub protocol: Seq<char>,
    pub attachments: Map<AttachmentKey, AttachmentView>,
}

/// What looking `key` up in `s` yields.
pub open spec fn scope_get(s: ScopeView, key: AttachmentKey) -> Option<AttachmentView> {
    if s.attachments.contains_key(key) {
        Some(s.attachments[key])
    } else {
        None
    }
}

/// `s` with `a` attached under its own key, replacing any prior attachment.
pub open spec fn scope_with(s: ScopeView, a: AttachmentView) -> ScopeView {
    ScopeView { protocol: s.protocol, attachments: s.attachments.insert(a.key(), a) }
}

/// Per-connection metadata: a protocol identifier and typed attachments,
/// at most one per attachment key.
pub struct Scope {
    protocol: String,
    http: Option<Attachment>,
    websocket: Option<Attachment>,
}

impl View for Scope {
    type V = ScopeView;

    closed spec fn view(&self) -> ScopeView {
        ScopeView { protocol: self.protocol@, attachments: self.attachments_map() }
    }
}

impl Scope {
    /// Each slot holds an attachment of its own key.
    #[verifier::type_invariant]
    closed spec fn wf(self) -> bool {
        &&& (match self.http {
            Some(a) => a@.key() == AttachmentKey::Http,
            None => true,
        })
        &&& (match self.websocket {
            Some(a) => a@.key() == AttachmentKey::WebSocket,
            None => true,
        })
    }

    /// The attachments as a map from key to value.
    closed spec fn attachments_map(&self) -> Map<AttachmentKey, AttachmentView> {
        let m0 = Map::<AttachmentKey, AttachmentView>::empty();
        let m1 = if self.http is Some {
            m0.insert(AttachmentKey::Http, self.http->0@)
        } else {
            m0
        };
        if self.websocket is Some {
            m1.insert(AttachmentKey::WebSocket, self.websocket->0@)
        } else {
            m1
        }
    }

    /// Creates a scope with the given protocol identifier and no attachments.
    pub fn new(protocol: String) -> (r: Self)
        ensures
            r@.protocol == protocol@,
            r@.attachments == Map::<AttachmentKey, AttachmentView>::empty(),
    {
        Scope { protocol, http: None, websocket: None }
    }

    /// The protocol identifier of this scope.
    pub fn protocol(&self) -> (r: &String)
        ensures
            r@ == self@.protocol,
    {
        &self.protocol
    }

    /// This scope with another protocol identifier.
    pub fn with_protocol(self, protocol: String) -> (r: Self)
        ensures
            r@.protocol == protocol@,
            r@.attachments == self@.attachments,
    {
        proof {
            use_type_invariant(&self);
        }
        let Scope { protocol: _, http, websocket } = self;
        Scope { protocol, http, websocket }
    }

    /// The attachment stored under `key`, if any.
    pub fn get(&self, key: AttachmentKey) -> (r: Option<Attachment>)
        ensures
            match r {
                Some(a) => scope_get(self@, key) == Some(a@),
                None => scope_get(self@, key) is None,
            },
    {
        proof {
            use_type_invariant(self);
        }
        match self.get_ref(key) {
            Some(a) => Some(a.clone()),
            None => None,
        }
    }

    /// A reference to the attachment stored under `key`, if any.
    pub fn get_ref(&self, key: AttachmentKey) -> (r: Option<&Attachment>)
        ensures
            match r {
                Some(a) => scope_get(self@, key) == Some(a@),
                None => scope_get(self@, key) is None,
            },
    {
        proof {
            use_type_invariant(self);
        }
        match key {
            AttachmentKey::Http => match &self.http {
                Some(a) => Some(a),
                None => None,
            },
            AttachmentKey::WebSocket => match &self.websocket {
                Some(a) => Some(a),
                None => None,
            },
        }
    }

    /// Stores `attachment` under its own key and returns the prior
    /// attachment of that key, if any.
    pub fn insert(&mut self, attachment: Attachment) -> (r: Option<Attachment>)
        ensures
            final(self)@ == scope_with(old(self)@, attachment@),
            match r {
                Some(a) => scope_get(old(self)@, attachment@.key()) == Some(a@),
                None => scope_get(old(self)@, attachment@.key()) is None,
            },
    {
        proof {
            use_type_invariant(&*self);
        }
        let is_http = match &attachment {
            Attachment::Http(_) => true,
            Attachment::WebSocket(_) => false,
        };
        if is_http {
            let mut prior: Option<Attachment> = Some(attachment);
            std::mem::swap(&mut prior, &mut self.http);
            proof {
                assert(self@.attachments =~= scope_with(old(self)@, attachment@).attachments);
            }
            prior
        } else {
            let mut prior: Option<Attachment> = Some(attachment);
            std::mem::swap(&mut prior, &mut self.websocket);
            proof {
                assert(self@.attachments =~= scope_with(old(self)@, attachment@).attachments);
            }
            prior
        }
    }

    /// Removes and returns the attachment stored under `key`, if any.
    pub fn remove(&mut self, key: AttachmentKey) -> (r: Option<Attachment>)
        ensures
            final(self)@.protocol == old(self)@.protocol,
            final(self)@.attachments == old(self)@.attachments.remove(key),
            match r {
                Some(a) => scope_get(old(self)@, key) == Some(a@),
                None => scope_get(old(self)@, key) is None,
            },
    {
        proof {
            use_type_invariant(&*self);
        }
        match key {
            AttachmentKey::Http => {
                let mut prior: Option<Attachment> = None;
                std::mem::swap(&mut prior, &mut self.http);
                proof {
                    assert(self@.attachments =~= old(self)@.attachments.remove(key));
                }
                prior
            },
            AttachmentKey::WebSocket => {
                let mut prior: Option<Attachment> = None;
                std::mem::swap(&mut prior, &mut self.websocket);
                proof {
                    assert(self@.attachments =~= old(self)@.attachments.remove(key));
                }
                prior
            },
        }
    }

    /// This scope with `attachment` stored under its own key.
    pub fn with_scope(self, attachment: Attachment) -> (r: Self)
        ensures
            r@ == scope_with(self@, attachment@),
    {
        let mut s = self;
        let _ = s.insert(attachment);
        s
    }
}

/// Looking up a key in a scope with no attachments yields nothing.
pub proof fn lemma_get_on_empty(s: ScopeView, key: AttachmentKey)
    requires
        s.attachments == Map::<AttachmentKey, AttachmentView>::empty(),
    ensures
        scope_get(s, key) is None,
{
}

/// Attaching a value and then looking its key up yields that value.
pub proof fn lemma_insert_then_get(s: ScopeView, a: AttachmentView)
    ensures
        scope_get(scope_with(s, a), a.key()) == Some(a),
{
}

/// Attaching a value leaves every other key unchanged, so a key never
/// inserted stays absent through any chain of other insertions.
pub proof fn lemma_insert_other_key(s: ScopeView, a: AttachmentView, key: AttachmentKey)
    requires
        key != a.key(),
    ensures
        scope_get(scope_with(s, a), key) == scope_get(s, key),
{
}

/// Removing one key leaves every other key unchanged.
pub proof fn lemma_remove_other_key(s: ScopeView, removed: AttachmentKey, key: AttachmentKey)
    requires
        key != removed,
    ensures
        scope_get(
            ScopeView { protocol: s.protocol, attachments: s.attachments.remove(removed) },
            key,
        ) == scope_get(s, key),
{
}

/// A tagged event on an inbound or outbound stream.
pub struct Event {
    family: String,
    payload: Payload,
}

/// The payload variants an event can carry, one closed family per protocol.
pub enum Payload {
    Http(HttpEvent),
    WebSocket(WebSocketEvent),
}

/// Which family of payload an event carries.
#[derive(Clone, Copy, Debug, PartialEq, Eq, Structural)]
pub enum PayloadKind {
    Http,
    WebSocket,
}

/// The mathematical value of a [`Payload`].
#[verifier::ext_equal]
pub enum PayloadView {
    Http(HttpEventView),
    WebSocket(WebSocketEventView),
}

impl PayloadView {
    /// The kind of this payload.
    pub open spec fn kind(self) -> PayloadKind {
        match self {
            PayloadView::Http(_) => PayloadKind::Http,
            PayloadView::WebSocket(_) => PayloadKind::WebSocket,
        }
    }
}

impl View for Payload {
    type V = PayloadView;

    open spec fn view(&self) -> PayloadView {
        match self {
            Payload::Http(e) => PayloadView::Http(e@),
            Payload::WebSocket(e) => PayloadView::WebSocket(e@),
        }
    }
}

impl Clone for Payload {
    /// A clone carries exactly the variant and payload of the original.
    fn clone(&self) -> (r: Self)
        ensures
            r@ == self@,
    {
        match self {
            Payload::Http(e) => Payload::Http(e.clone()),
            Payload::WebSocket(e) => Payload::WebSocket(e.clone()),
        }
    }
}

/// The mathematical value of an [`Event`].
#[verifier::ext_equal]
pub struct EventView {
    pub family: Seq<char>,
    pub payload: PayloadView,
}

impl View for Event {
    type V = EventView;

    closed spec fn view(&self) -> EventView {
        EventView { family: self.family@, payload: self.payload@ }
    }
}

impl Event {
    /// Creates an event of the given family and payload.
    pub fn new(family: String, payload: Payload) -> (r: Self)
        ensures
            r@.family == family@,
            r@.payload == payload@,
    {
        Event { family, payload }
    }

    /// The family tag of this event.
    pub fn family(&self) -> (r: &String)
        ensures
            r@ == self@.family,
    {
        &self.family
    }

    /// The payload, if it is of the given kind.
    pub fn get(&self, kind: PayloadKind) -> (r: Option<Payload>)
        ensures
            match r {
                Some(p) => p@ == self@.payload && self@.payload.kind() == kind,
                None => self@.payload.kind() != kind,
            },
    {
        match (&self.payload, kind) {
            (Payload::Http(_), PayloadKind::Http) => Some(self.payload.clone()),
            (Payload::WebSocket(_), PayloadKind::WebSocket) => Some(self.payload.clone()),
            _ => None,
        }
    }

    /// A reference to the payload, if it is of the given kind.
    pub fn get_ref(&self, kind: PayloadKind) -> (r: Option<&Payload>)
        ensures
            match r {
                Some(p) => p@ == self@.payload && self@.payload.kind() == kind,
                None => self@.payload.kind() != kind,
            },
    {
        match (&self.payload, kind) {
            (Payload::Http(_), PayloadKind::Http) => Some(&self.payload),
            (Payload::WebSocket(_), PayloadKind::WebSocket) => Some(&self.payload),
            _ => None,
        }
    }
}

impl Clone for Event {
    /// A clone carries exactly the family and payload of the original.
    fn clone(&self) -> (r: Self)
        ensures
            r@ == self@,
    {
        Event { family: self.family.clone(), payload: self.payload.clone() }
    }
}

/// The views of a sequence of events.
pub open spec fn events_view(es: Seq<Event>) -> Seq<EventView> {
    es.map_values(|e: Event| e@)
}

/// Whether the executable outcome `r` is the specified outcome `s`.
pub open spec fn call_matches(
    r: Result<Vec<Event>, ServiceError>,
    s: Result<Seq<EventView>, ServiceError>,
) -> bool {
    match r {
        Ok(v) => s == Ok::<Seq<EventView>, ServiceError>(events_view(v@)),
        Err(e) => s == Err::<Seq<EventView>, ServiceError>(e),
    }
}

/// An application unit: it consumes a scope and the connection's inbound
/// event stream, and produces the outbound event stream, or fails.
pub trait Service: Sized {
    /// The outcome `call` produces for a given scope and inbound stream.
    spec fn spec_call(&self, scope: ScopeView, inbound: Seq<EventView>) -> Result<
        Seq<EventView>,
        ServiceError,
    >;

    /// Handles one connection: consumes `inbound` exactly once and
    /// produces the outbound stream exactly once.
    fn call(&mut self, scope: &Scope, inbound: Vec<Event>) -> (r: Result<Vec<Event>, ServiceError>)
        ensures
            call_matches(r, old(self).spec_call(scope@, events_view(inbound@)));
}

} // verus!
