//! The HTTP event family and the request metadata attached to a scope.

use vstd::prelude::*;

use crate::headers::Headers;

verus! {

/// Protocol identifier that HTTP adapters put on a scope.
pub fn protocol_http() -> (s: String)
    ensures
        s@ == "http"@,
{
    String::from_str("http")
}

/// Family tag of HTTP events.
pub fn event_http() -> (s: String)
    ensures
        s@ == "http"@,
{
    String::from_str("http")
}

/// The HTTP protocol versions a request can carry.
#[derive(Clone, Copy, Debug, PartialEq, Eq, Structural)]
pub enum HttpVersion {
    Http09,
    Http10,
    Http11,
    H2,
    H3,
}

impl HttpVersion {
    /// Whether this version is HTTP/1.1 or newer.
    pub open spec fn spec_at_least_http11(self) -> bool {
        match self {
            HttpVersion::Http09 => false,
            HttpVersion::Http10 => false,
            HttpVersion::Http11 => true,
            HttpVersion::H2 => true,
            HttpVersion::H3 => true,
        }
    }

    /// Tests whether this version is HTTP/1.1 or newer.
    pub fn at_least_http11(&self) -> (r: bool)
        ensures
            r == self.spec_at_least_http11(),
    {
        match self {
            HttpVersion::Http09 => false,
            HttpVersion::Http10 => false,
            HttpVersion::Http11 => true,
            HttpVersion::H2 => true,
            HttpVersion::H3 => true,
        }
    }
}

/// A peer of the connection, as host and port.
pub struct PeerAddr {
    pub host: String,
    pub port: u16,
}

/// The mathematical value of a [`PeerAddr`].
#[verifier::ext_equal]
pub struct PeerAddrView {
    pub host: Seq<char>,
    pub port: u16,
}

impl View for PeerAddr {
    type V = PeerAddrView;

    open spec fn view(&self) -> PeerAddrView {
        PeerAddrView { host: self.host@, port: self.port }
    }
}

impl Clone for PeerAddr {
    /// A clone carries exactly the host and port of the original.
    fn clone(&self) -> (r: Self)
        ensures
            r@ == self@,
    {
        PeerAddr { host: self.host.clone(), port: self.port }
    }
}

/// The view of an optional peer address.
pub open spec fn addr_view(a: Option<PeerAddr>) -> Option<PeerAddrView> {
    match a {
        Some(p) => Some(p@),
        None => None,
    }
}

/// Request metadata attached to a scope at HTTP ingress.
pub struct HttpScope {
    pub method: String,
    pub uri: String,
    pub version: HttpVersion,
    pub headers: Headers,
    pub server: Option<PeerAddr>,
    pub client: Option<PeerAddr>,
}

/// The mathematical value of an [`HttpScope`].
#[verifier::ext_equal]
pub struct HttpScopeView {
    pub method: Seq<char>,
    pub uri: Seq<char>,
    pub version: HttpVersion,
    pub headers: Seq<(Seq<char>, Seq<char>)>,
    pub server: Option<PeerAddrView>,
    pub client: Option<PeerAddrView>,
}

impl View for HttpScope {
    type V = HttpScopeView;

    open spec fn view(&self) -> HttpScopeView {
        HttpScopeView {
            method: self.method@,
            uri: self.uri@,
            version: self.version,
            headers: self.headers@,
            server: addr_view(self.server),
            client: addr_view(self.client),
        }
    }
}

impl Clone for HttpScope {
    /// A clone carries exactly the fields of the original.
    fn clone(&self) -> (r: Self)
        ensures
            r@ == self@,
    {
        HttpScope {
            method: self.method.clone(),
            uri: self.uri.clone(),
            version: self.version,
            headers: self.headers.clone(),
            server: match &self.server {
                Some(p) => Some(p.clone()),
                None => None,
            },
            client: match &self.client {
                Some(p) => Some(p.clone()),
                None => None,
            },
        }
    }
}

impl Default for HttpScope {
    /// An empty GET request line over HTTP/1.1 with no headers and no peers.
    fn default() -> (r: Self)
        ensures
            r@.method == Seq::<char>::empty(),
            r@.uri == Seq::<char>::empty(),
            r@.version == HttpVersion::Http11,
            r@.headers == Seq::<(Seq<char>, Seq<char>)>::empty(),
            r@.server is None,
            r@.client is None,
    {
        HttpScope {
            method: String::new(),
            uri: String::new(),
            version: HttpVersion::Http11,
            headers: Headers::new(),
            server: None,
            client: None,
        }
    }
}

/// One chunk of a request body.
pub struct RequestChunk {
    pub body: Vec<u8>,
    pub more: bool,
}

/// The mathematical value of a [`RequestChunk`].
#[verifier::ext_equal]
pub struct RequestChunkView {
    pub body: Seq<u8>,
    pub more: bool,
}

impl View for RequestChunk {
    type V = RequestChunkView;

    open spec fn view(&self) -> RequestChunkView {
        RequestChunkView { body: self.body@, more: self.more }
    }
}

impl Clone for RequestChunk {
    /// A clone carries exactly the bytes and flag of the original.
    fn clone(&self) -> (r: Self)
        ensures
            r@ == self@,
    {
        let r = RequestChunk { body: self.body.clone(), more: self.more };
        proof {
            assert(r.body@ =~= self.body@);
        }
        r
    }
}

impl Default for RequestChunk {
    /// An empty final chunk.
    fn default() -> (r: Self)
        ensures
            r@.body == Seq::<u8>::empty(),
            r@.more == false,
    {
        let r = RequestChunk { body: Vec::new(), more: false };
        proof {
            assert(r.body@ =~= Seq::<u8>::empty());
        }
        r
    }
}

/// One chunk of a response body.
pub struct ResponseChunk {
    pub body: Vec<u8>,
    pub more: bool,
}

/// The mathematical value of a [`ResponseChunk`].
#[verifier::ext_equal]
pub struct ResponseChunkView {
    pub body: Seq<u8>,
    pub more: bool,
}

impl View for ResponseChunk {
    type V = ResponseChunkView;

    open spec fn view(&self) -> ResponseChunkView {
        ResponseChunkView { body: self.body@, more: self.more }
    }
}

impl Clone for ResponseChunk {
    /// A clone carries exactly the bytes and flag of the original.
    fn clone(&self) -> (r: Self)
        ensures
            r@ == self@,
    {
        let r = ResponseChunk { body: self.body.clone(), more: self.more };
        proof {
            assert(r.body@ =~= self.body@);
        }
        r
    }
}

impl Default for ResponseChunk {
    /// An empty final chunk.
    fn default() -> (r: Self)
        ensures
            r@.body == Seq::<u8>::empty(),
            r@.more == false,
    {
        let r = ResponseChunk { body: Vec::new(), more: false };
        proof {
            assert(r.body@ =~= Seq::<u8>::empty());
        }
        r
    }
}

/// The head of a response: status, headers, and whether trailers follow the body.
pub struct ResponseStart {
    pub status: u16,
    pub headers: Headers,
    pub trailers: bool,
}

/// The mathematical value of a [`ResponseStart`].
#[verifier::ext_equal]
pub struct ResponseStartView {
    pub status: u16,
    pub headers: Seq<(Seq<char>, Seq<char>)>,
    pub trailers: bool,
}

impl View for ResponseStart {
    type V = ResponseStartView;

    open spec fn view(&self) -> ResponseStartView {
        ResponseStartView { status: self.status, headers: self.headers@, trailers: self.trailers }
    }
}

impl Clone for ResponseStart {
    /// A clone carries exactly the fields of the original.
    fn clone(&self) -> (r: Self)
        ensures
            r@ == self@,
    {
        ResponseStart {
            status: self.status,
            headers: self.headers.clone(),
            trailers: self.trailers,
        }
    }
}

impl Default for ResponseStart {
    /// Status 200 with no headers and no trailers.
    fn default() -> (r: Self)
        ensures
            r@.status == 200,
            r@.headers == Seq::<(Seq<char>, Seq<char>)>::empty(),
            r@.trailers == false,
    {
        ResponseStart { status: 200, headers: Headers::new(), trailers: false }
    }
}

/// One block of trailing headers after a response body.
pub struct ResponseTrailer {
    pub headers: Headers,
    pub more: bool,
}

/// The mathematical value of a [`ResponseTrailer`].
#[verifier::ext_equal]
pub struct ResponseTrailerView {
    pub headers: Seq<(Seq<char>, Seq<char>)>,
    pub more: bool,
}

impl View for ResponseTrailer {
    type V = ResponseTrailerView;

    open spec fn view(&self) -> ResponseTrailerView {
        ResponseTrailerView { headers: self.headers@, more: self.more }
    }
}

impl Clone for ResponseTrailer {
    /// A clone carries exactly the fields of the original.
    fn clone(&self) -> (r: Self)
        ensures
            r@ == self@,
    {
        ResponseTrailer { headers: self.headers.clone(), more: self.more }
    }
}

impl Default for ResponseTrailer {
    /// An empty final trailer block.
    fn default() -> (r: Self)
        ensures
            r@.headers == Seq::<(Seq<char>, Seq<char>)>::empty(),
            r@.more == false,
    {
        ResponseTrailer { headers: Headers::new(), more: false }
    }
}

/// Notice that the HTTP peer went away.
#[derive(Clone, Copy, Debug, PartialEq, Eq, Structural)]
pub struct Disconnect {}

impl Default for Disconnect {
    /// The only value there is.
    fn default() -> (r: Self)
        ensures
            r == (Disconnect {  }),
    {
        Disconnect {  }
    }
}

/// An event of the HTTP family.
pub enum HttpEvent {
    RequestChunk(RequestChunk),
    ResponseChunk(ResponseChunk),
    ResponseStart(ResponseStart),
    ResponseTrailer(ResponseTrailer),
    Disconnect(Disconnect),
}

/// The mathematical value of an [`HttpEvent`].
#[verifier::ext_equal]
pub enum HttpEventView {
    RequestChunk(RequestChunkView),
    ResponseChunk(ResponseChunkView),
    ResponseStart(ResponseStartView),
    ResponseTrailer(ResponseTrailerView),
    Disconnect(Disconnect),
}

impl View for HttpEvent {
    type V = HttpEventView;

    open spec fn view(&self) -> HttpEventView {
        match self {
            HttpEvent::RequestChunk(c) => HttpEventView::RequestChunk(c@),
            HttpEvent::ResponseChunk(c) => HttpEventView::ResponseChunk(c@),
            HttpEvent::ResponseStart(s) => HttpEventView::ResponseStart(s@),
            HttpEvent::ResponseTrailer(t) => HttpEventView::ResponseTrailer(t@),
            HttpEvent::Disconnect(d) => HttpEventView::Disconnect(*d),
        }
    }
}

impl Clone for HttpEvent {
    /// A clone carries exactly the variant and payload of the original.
    fn clone(&self) -> (r: Self)
        ensures
            r@ == self@,
    {
        match self {
            HttpEvent::RequestChunk(c) => HttpEvent::RequestChunk(c.clone()),
            HttpEvent::ResponseChunk(c) => HttpEvent::ResponseChunk(c.clone()),
            HttpEvent::ResponseStart(s) => HttpEvent::ResponseStart(s.clone()),
            HttpEvent::ResponseTrailer(t) => HttpEvent::ResponseTrailer(t.clone()),
            HttpEvent::Disconnect(d) => HttpEvent::Disconnect(*d),
        }
    }
}

} // verus!
